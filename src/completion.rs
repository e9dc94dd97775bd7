//! The chat-completion client: its data, and what it makes of a failed
//! response. The retry decisions are in `retry`.
use vstd::prelude::*;
use crate::error::ClientError;
use crate::json::{json_rendering, render_compact};
use crate::text::{decimal, decimal_spec, truncate_body, truncated_spec};

verus! {

/// One message of a conversation: who speaks (`user`, `assistant`, ...) and
/// what is said.
#[derive(Clone, Debug)]
pub struct ZhiPuMessage {
    pub role: String,
    pub content: String,
}

/// A completed chat: ids, creation time (Unix seconds), model, the choices
/// and the token counts.
#[derive(Clone, Debug)]
pub struct ZhiPuResponse {
    pub id: String,
    pub request_id: String,
    pub created: i64,
    pub model: String,
    pub choices: Vec<ZhiPuChoice>,
    pub usage: ZhiPuUsage,
}

/// Token counts of one call; `total_tokens` is expected, not checked, to be
/// the sum of the other two.
#[derive(Clone, Copy, Debug)]
pub struct ZhiPuUsage {
    pub prompt_tokens: i32,
    pub completion_tokens: i32,
    pub total_tokens: i32,
}

/// One answer of a completion, and why the model stopped (`stop`, `length`).
#[derive(Clone, Debug)]
pub struct ZhiPuChoice {
    pub index: i32,
    pub message: ZhiPuResponseMessage,
    pub finish_reason: String,
}

/// The message of an answer, with the model's reasoning where it gave one.
#[derive(Clone, Debug)]
pub struct ZhiPuResponseMessage {
    pub role: String,
    pub content: String,
    pub reasoning_content: Option<String>,
}

/// The text that the HTTP status type displays for a code: the code and its
/// reason phrase.
pub uninterp spec fn status_display(code: u16) -> Seq<char>;

/// Relies on reqwest::StatusCode::from_u16, which accepts 100 to 999, and on
/// the status's `Display`, which writes the code and its reason phrase.
#[verifier::external_body]
fn status_text(code: u16) -> (r: Option<String>)
    ensures
        r is Some <==> 100 <= code <= 999,
        r is Some ==> r->Some_0@ == status_display(code),
{
    reqwest::StatusCode::from_u16(code).ok().map(|s| s.to_string())
}

/// How a status is named in an error: as the status type displays it, or
/// as a bare number where it is out of the range of HTTP codes.
pub open spec fn status_line_spec(code: u16) -> Seq<char> {
    if 100 <= code <= 999 {
        status_display(code)
    } else {
        decimal_spec(code as nat)
    }
}

pub open spec fn unread_body() -> Seq<char> {
    "Failed to read error body"@
}

/// The message of a fatal API error. A body that is JSON is shown in
/// compact form; any other body is shown cut to 200 characters, after the
/// status.
pub open spec fn api_error_text(status_line: Seq<char>, body: Seq<char>, rendered: Option<Seq<char>>) -> Seq<char> {
    match rendered {
        Some(json) => "ZhiPu API error: "@ + json,
        None => "ZhiPu API error ("@ + status_line + "): "@ + truncated_spec(body),
    }
}

/// Builds the message of a fatal API error, given the compact rendering of
/// the body where the body is JSON.
pub fn api_error_message(status_line: &str, body: &str, rendered: Option<String>) -> (r: String)
    ensures
        r@ == api_error_text(status_line@, body@, match rendered { Some(j) => Some(j@), None => None }),
{
    match rendered {
        Some(json) => {
            let mut r = String::from_str("ZhiPu API error: ");
            r.append(json.as_str());
            r
        },
        None => {
            let mut r = String::from_str("ZhiPu API error (");
            r.append(status_line);
            r.append("): ");
            let cut = truncate_body(body);
            r.append(cut.as_str());
            r
        },
    }
}

/// The error that a response with a fatal status becomes. `body` is the
/// response text, or `None` where it could not be read.
pub fn format_error_response(status_code: u16, body: Option<String>) -> (r: ClientError)
    ensures
        ({
            let text = match body { Some(b) => b@, None => unread_body() };
            r is Api && r->Api_0@ == api_error_text(
                status_line_spec(status_code), text, json_rendering(text))
        }),
{
    let text = match body {
        Some(b) => b,
        None => String::from_str("Failed to read error body"),
    };
    let status_line = match status_text(status_code) {
        Some(s) => s,
        None => decimal(status_code as u64),
    };
    let rendered = render_compact(text.as_str());
    ClientError::Api(api_error_message(status_line.as_str(), text.as_str(), rendered))
}

/// The error that transport failures become once no retry is left.
pub fn network_error(detail: &str) -> (r: ClientError)
    ensures
        r is Network,
        r->Network_0@ == "ZhiPu API network error: "@ + detail@,
{
    let mut m = String::from_str("ZhiPu API network error: ");
    m.append(detail);
    ClientError::Network(m)
}

/// The end of a call whose status was a success: the decoded response, or
/// a fatal decode error where the body did not decode.
pub fn finish_decode(decoded: Result<ZhiPuResponse, String>) -> (r: Result<ZhiPuResponse, ClientError>)
    ensures
        match decoded {
            Ok(resp) => r == Ok::<ZhiPuResponse, ClientError>(resp),
            Err(m) => r == Err::<ZhiPuResponse, ClientError>(ClientError::Decode(m)),
        },
{
    match decoded {
        Ok(resp) => Ok(resp),
        Err(m) => Err(ClientError::Decode(m)),
    }
}

/// The address of the completion endpoint under a service base address.
pub fn completion_endpoint(base: &str) -> (r: String)
    ensures
        r@ == base@ + "/chat/completions"@,
{
    let mut r = String::from_str(base);
    r.append("/chat/completions");
    r
}

/// The value of the `Authorization` header for a credential.
pub fn bearer_header(api_key: &str) -> (r: String)
    ensures
        r@ == "Bearer "@ + api_key@,
{
    let mut r = String::from_str("Bearer ");
    r.append(api_key);
    r
}

} // verus!
