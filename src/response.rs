//! Reading the bodies of the service's responses.

use vstd::prelude::*;
use crate::asset::{asset_filename, image_filename};
use crate::error::{ErrorView, ServiceError};
use crate::json::{json_text_at, text_at_pointer};
use crate::message::{stripped_message, strip_code_prefix};

verus! {

/// The job status that marks a finished image.
pub const SUCCESS_STATUS: &'static str = "SUCCESS";

pub const CONVERSATION_ID_POINTER: &'static str = "/conversation/uuid";

pub const JOB_STATUS_POINTER: &'static str = "/aiRecord/status";

pub const JOB_URL_POINTER: &'static str = "/aiRecord/temporaryUrl";

pub const MESSAGE_POINTER: &'static str = "/message";

/// A generated image ready for download.
#[derive(Debug)]
pub struct ImageAsset {
    /// Where the image can be fetched, without credentials.
    pub url: String,
    /// The local file name it is saved under.
    pub filename: String,
}

/// What a successful conversation-creation body yields.
pub open spec fn conversation_id_result(body: Seq<char>) -> Result<Seq<char>, ErrorView> {
    match json_text_at(body, CONVERSATION_ID_POINTER@) {
        Some(id) => Ok(id),
        None => Err(ErrorView::MalformedResponse { response: body }),
    }
}

/// Reads the conversation identifier from a successful creation response.
pub fn read_conversation_id(body: &str) -> (r: Result<String, ServiceError>)
    ensures
        conversation_id_result(body@) == match r {
            Ok(id) => Ok(id@),
            Err(e) => Err(e@),
        },
{
    match text_at_pointer(body, CONVERSATION_ID_POINTER) {
        Some(id) => Ok(id),
        None => Err(ServiceError::MalformedResponse { response: String::from_str(body) }),
    }
}

/// The outcome of an image job with the given status and asset URL.
pub open spec fn image_job_result(status: Seq<char>, url: Seq<char>) -> Result<
    (Seq<char>, Seq<char>),
    ErrorView,
> {
    if status != SUCCESS_STATUS@ {
        Err(ErrorView::ImageJobFailed { job_status: status })
    } else if url.len() == 0 {
        Err(ErrorView::MissingAssetUrl)
    } else {
        Ok((url, asset_filename(url)))
    }
}

/// The mathematical form of an image-job outcome.
pub open spec fn image_result_view(r: Result<ImageAsset, ServiceError>) -> Result<
    (Seq<char>, Seq<char>),
    ErrorView,
> {
    match r {
        Ok(a) => Ok((a.url@, a.filename@)),
        Err(e) => Err(e@),
    }
}

/// Judges a finished image job: it must report success and name an asset
/// URL, from which the local file name is derived.
pub fn check_image_job(status: &str, url: &str) -> (r: Result<ImageAsset, ServiceError>)
    ensures
        image_result_view(r) == image_job_result(status@, url@),
{
    let s = String::from_str(status);
    if s != String::from_str(SUCCESS_STATUS) {
        return Err(ServiceError::ImageJobFailed { job_status: s });
    }
    if url.unicode_len() == 0 {
        return Err(ServiceError::MissingAssetUrl);
    }
    let filename = image_filename(url);
    Ok(ImageAsset { url: String::from_str(url), filename })
}

/// What a successful image-generation body yields: a missing job status is
/// a malformed response, and a missing asset URL counts as an empty one.
pub open spec fn image_response_result(body: Seq<char>) -> Result<(Seq<char>, Seq<char>), ErrorView> {
    match json_text_at(body, JOB_STATUS_POINTER@) {
        None => Err(ErrorView::MalformedResponse { response: body }),
        Some(status) => {
            let url = match json_text_at(body, JOB_URL_POINTER@) {
                Some(u) => u,
                None => Seq::empty(),
            };
            image_job_result(status, url)
        },
    }
}

/// Reads and judges the job record of a successful image-generation response.
pub fn read_image_job(body: &str) -> (r: Result<ImageAsset, ServiceError>)
    ensures
        image_result_view(r) == image_response_result(body@),
{
    let status = match text_at_pointer(body, JOB_STATUS_POINTER) {
        Some(s) => s,
        None => {
            return Err(ServiceError::MalformedResponse { response: String::from_str(body) });
        },
    };
    let url = match text_at_pointer(body, JOB_URL_POINTER) {
        Some(u) => u,
        None => String::new(),
    };
    check_image_job(status.as_str(), url.as_str())
}

/// The message surfaced for a failed image request: the body's `message`
/// field with any numeric code removed, or the whole body when it has none.
pub open spec fn image_error_text(body: Seq<char>) -> Seq<char> {
    match json_text_at(body, MESSAGE_POINTER@) {
        Some(m) => stripped_message(m),
        None => body,
    }
}

/// Extracts the message surfaced for a failed image request.
pub fn image_error_message(body: &str) -> (r: String)
    ensures
        r@ == image_error_text(body@),
{
    match text_at_pointer(body, MESSAGE_POINTER) {
        Some(m) => strip_code_prefix(m.as_str()),
        None => String::from_str(body),
    }
}

} // verus!
