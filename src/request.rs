//! The JSON bodies of the three service requests.

use vstd::prelude::*;
use crate::json::{json_quoted, quote};

verus! {

/// The decimal text of one digit.
pub open spec fn digit_text(d: nat) -> Seq<char> {
    if d == 0 {
        "0"@
    } else if d == 1 {
        "1"@
    } else if d == 2 {
        "2"@
    } else if d == 3 {
        "3"@
    } else if d == 4 {
        "4"@
    } else if d == 5 {
        "5"@
    } else if d == 6 {
        "6"@
    } else if d == 7 {
        "7"@
    } else if d == 8 {
        "8"@
    } else {
        "9"@
    }
}

/// The decimal text of `n`, without leading zeros.
pub open spec fn decimal(n: nat) -> Seq<char>
    decreases n,
{
    if n < 10 {
        digit_text(n)
    } else {
        decimal(n / 10) + digit_text(n % 10)
    }
}

fn digit_str(d: u32) -> (r: &'static str)
    requires
        d < 10,
    ensures
        r@ == digit_text(d as nat),
{
    if d == 0 {
        "0"
    } else if d == 1 {
        "1"
    } else if d == 2 {
        "2"
    } else if d == 3 {
        "3"
    } else if d == 4 {
        "4"
    } else if d == 5 {
        "5"
    } else if d == 6 {
        "6"
    } else if d == 7 {
        "7"
    } else if d == 8 {
        "8"
    } else {
        "9"
    }
}

/// Writes `n` in decimal.
pub fn decimal_text(n: u32) -> (r: String)
    ensures
        r@ == decimal(n as nat),
    decreases n,
{
    if n < 10 {
        String::from_str(digit_str(n))
    } else {
        let head = decimal_text(n / 10);
        head.concat(digit_str(n % 10))
    }
}

/// The conversation kind that chat requests use.
pub const CHAT_KIND: &'static str = "CHAT_WITH_AI";

/// The body that creates a conversation with the given title.
pub open spec fn conversation_body(title: Seq<char>) -> Seq<char> {
    "{\"type\":"@ + json_quoted(CHAT_KIND@) + ",\"title\":"@ + json_quoted(title) + "}"@
}

/// Frames the request that creates a conversation.
pub fn conversation_request(title: &str) -> (r: String)
    ensures
        r@ == conversation_body(title@),
{
    let r = String::from_str("{\"type\":");
    let r = r.concat(quote(CHAT_KIND).as_str());
    let r = r.concat(",\"title\":");
    let r = r.concat(quote(title).as_str());
    r.concat("}")
}

/// The body of a streamed chat request: mixed mode and web search are off,
/// and `max_words` bounds the length of the answer.
pub open spec fn chat_body(
    conversation_id: Seq<char>,
    model: Seq<char>,
    prompt: Seq<char>,
    max_words: nat,
) -> Seq<char> {
    "{\"type\":"@ + json_quoted(CHAT_KIND@) + ",\"conversationId\":"@ + json_quoted(conversation_id)
        + ",\"model\":"@ + json_quoted(model) + ",\"promptObject\":{\"prompt\":"@ + json_quoted(
        prompt,
    ) + ",\"isMixed\":false,\"webSearch\":false,\"numOfSite\":0,\"maxWord\":"@ + decimal(max_words)
        + "}}"@
}

/// Frames a streamed chat request within a conversation.
pub fn chat_request(conversation_id: &str, model: &str, prompt: &str, max_words: u32) -> (r: String)
    ensures
        r@ == chat_body(conversation_id@, model@, prompt@, max_words as nat),
{
    let r = String::from_str("{\"type\":");
    let r = r.concat(quote(CHAT_KIND).as_str());
    let r = r.concat(",\"conversationId\":");
    let r = r.concat(quote(conversation_id).as_str());
    let r = r.concat(",\"model\":");
    let r = r.concat(quote(model).as_str());
    let r = r.concat(",\"promptObject\":{\"prompt\":");
    let r = r.concat(quote(prompt).as_str());
    let r = r.concat(",\"isMixed\":false,\"webSearch\":false,\"numOfSite\":0,\"maxWord\":");
    let r = r.concat(decimal_text(max_words).as_str());
    r.concat("}}")
}

/// The request kind of image generation.
pub const IMAGE_KIND: &'static str = "IMAGE_GENERATOR";

/// The body of an image-generation request for one image.
pub open spec fn image_body(
    model: Seq<char>,
    prompt: Seq<char>,
    size: Seq<char>,
    quality: Seq<char>,
    style: Seq<char>,
) -> Seq<char> {
    "{\"type\":"@ + json_quoted(IMAGE_KIND@) + ",\"model\":"@ + json_quoted(model)
        + ",\"promptObject\":{\"prompt\":"@ + json_quoted(prompt) + ",\"n\":1,\"size\":"@
        + json_quoted(size) + ",\"quality\":"@ + json_quoted(quality) + ",\"style\":"@
        + json_quoted(style) + "}}"@
}

/// Frames an image-generation request for one image.
pub fn image_request(model: &str, prompt: &str, size: &str, quality: &str, style: &str) -> (r:
    String)
    ensures
        r@ == image_body(model@, prompt@, size@, quality@, style@),
{
    let r = String::from_str("{\"type\":");
    let r = r.concat(quote(IMAGE_KIND).as_str());
    let r = r.concat(",\"model\":");
    let r = r.concat(quote(model).as_str());
    let r = r.concat(",\"promptObject\":{\"prompt\":");
    let r = r.concat(quote(prompt).as_str());
    let r = r.concat(",\"n\":1,\"size\":");
    let r = r.concat(quote(size).as_str());
    let r = r.concat(",\"quality\":");
    let r = r.concat(quote(quality).as_str());
    let r = r.concat(",\"style\":");
    let r = r.concat(quote(style).as_str());
    r.concat("}}")
}

} // verus!
