//! Failures of the service operations.

use vstd::prelude::*;

verus! {

/// A failure of one service operation.
#[derive(Debug)]
pub enum ServiceError {
    /// The service refused the credential, also after one refresh.
    Unauthorized { status: u16, body: String },
    /// The service answered with another non-success status.
    Api { status: u16, message: String },
    /// The image job ended with a status other than success.
    ImageJobFailed { job_status: String },
    /// The image job succeeded but named no asset URL.
    MissingAssetUrl,
    /// A success response whose body lacks the expected field.
    MalformedResponse { response: String },
}

/// The mathematical form of a [`ServiceError`].
pub enum ErrorView {
    Unauthorized { status: u16, body: Seq<char> },
    Api { status: u16, message: Seq<char> },
    ImageJobFailed { job_status: Seq<char> },
    MissingAssetUrl,
    MalformedResponse { response: Seq<char> },
}

impl View for ServiceError {
    type V = ErrorView;

    open spec fn view(&self) -> ErrorView {
        match self {
            ServiceError::Unauthorized { status, body } => ErrorView::Unauthorized {
                status: *status,
                body: body@,
            },
            ServiceError::Api { status, message } => ErrorView::Api {
                status: *status,
                message: message@,
            },
            ServiceError::ImageJobFailed { job_status } => ErrorView::ImageJobFailed {
                job_status: job_status@,
            },
            ServiceError::MissingAssetUrl => ErrorView::MissingAssetUrl,
            ServiceError::MalformedResponse { response } => ErrorView::MalformedResponse {
                response: response@,
            },
        }
    }
}

} // verus!
