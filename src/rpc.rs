//! The Anki-Connect envelope: the request object that wraps an action and
//! its parameters, and the tagged success or error object that comes back.
use vstd::prelude::*;
use crate::error::ClientError;
use crate::json::{
    into_string, json_members, json_quoted, JsonKind, parse_object, quote, take_member,
};
use crate::text::{decimal, decimal_spec};

verus! {

/// The protocol version that every request carries.
pub const ANKI_CONNECT_VERSION: u8 = 6;

/// A value that the library writes as JSON text itself.
pub trait ToJson {
    spec fn json(&self) -> Seq<char>;

    fn to_json(&self) -> (r: String)
        ensures
            r@ == self.json(),
    ;
}

/// No parameters: JSON `null`.
impl ToJson for () {
    open spec fn json(&self) -> Seq<char> {
        "null"@
    }

    fn to_json(&self) -> (r: String) {
        String::from_str("null")
    }
}

/// Parameters that were already written as JSON text elsewhere.
#[derive(Clone, Debug)]
pub struct JsonText {
    pub text: String,
}

impl ToJson for JsonText {
    open spec fn json(&self) -> Seq<char> {
        self.text@
    }

    fn to_json(&self) -> (r: String) {
        self.text.clone()
    }
}

/// A request to Anki-Connect: the action, the protocol version and the
/// action's parameters, if it takes any.
#[derive(Clone, Debug)]
pub struct AnkiRequest<T> {
    pub action: String,
    pub version: u8,
    pub params: Option<T>,
}

/// The envelope's text up to where its parameters would stand.
pub open spec fn envelope_head(action: Seq<char>, version: u8) -> Seq<char> {
    "{\"action\":"@ + json_quoted(action) + ",\"version\":"@ + decimal_spec(version as nat)
}

/// The envelope as JSON text: `{"action":..,"version":..,"params":..}`, where
/// the `params` member is left out entirely when there are no parameters.
pub open spec fn envelope_text(action: Seq<char>, version: u8, params: Option<Seq<char>>) -> Seq<char> {
    match params {
        Some(p) => envelope_head(action, version) + ",\"params\":"@ + p + "}"@,
        None => envelope_head(action, version) + "}"@,
    }
}

/// Leaving the parameters out leaves out the whole `params` member and
/// nothing else: the text with parameters is the text without them, with
/// `,"params":` and the parameters put in before its closing brace.
pub proof fn lemma_params_member_omitted(action: Seq<char>, version: u8, params: Seq<char>)
    ensures
        envelope_text(action, version, None) == envelope_head(action, version) + "}"@,
        envelope_text(action, version, Some(params)) == envelope_text(action, version, None).drop_last()
            + ",\"params\":"@ + params + "}"@,
{
    reveal_strlit("}");
    let head = envelope_head(action, version);
    assert((head + "}"@).drop_last() =~= head);
}

impl<T> AnkiRequest<T> {
    /// A request for `action` with the given version and parameters.
    pub fn new(action: &str, version: u8, params: Option<T>) -> (r: Self)
        ensures
            r.action@ == action@,
            r.version == version,
            r.params == params,
    {
        AnkiRequest { action: String::from_str(action), version, params }
    }
}

impl<T: ToJson> AnkiRequest<T> {
    pub open spec fn params_json(&self) -> Option<Seq<char>> {
        match self.params {
            Some(p) => Some(p.json()),
            None => None,
        }
    }

    /// The request as the JSON body that is posted.
    pub fn to_json(&self) -> (r: String)
        ensures
            r@ == envelope_text(self.action@, self.version, self.params_json()),
    {
        let mut r = String::from_str("{\"action\":");
        let action = quote(self.action.as_str());
        r.append(action.as_str());
        r.append(",\"version\":");
        let version = decimal(self.version as u64);
        r.append(version.as_str());
        match &self.params {
            Some(p) => {
                r.append(",\"params\":");
                let text = p.to_json();
                r.append(text.as_str());
            },
            None => {},
        }
        r.append("}");
        r
    }
}

/// What an error envelope says: the error, and a detail where it gave one.
#[derive(Clone, Debug)]
pub struct RemoteFailure {
    pub error: String,
    pub detail: Option<String>,
}

/// A response object, read as far as the envelope goes: its `result` member
/// where it has one, and its error where it has the error shape (a string
/// `error`, and a `detail` that is absent, null or a string).
#[derive(Clone, Debug)]
pub struct RawEnvelope {
    pub result: Option<serde_json::Value>,
    pub failure: Option<RemoteFailure>,
}

/// A response of Anki-Connect: the result of the action, or the error it
/// reported.
#[derive(Clone, Debug)]
pub enum AnkiResponse<T> {
    Success { result: T },
    Error { error: String, detail: Option<String> },
}

pub open spec fn unparsed_response() -> Seq<char> {
    "Failed to parse Anki-Connect response"@
}

/// The error shape of a response object, where it has it: a string `error`
/// member, and a `detail` member that is absent, null (no detail) or a string.
pub open spec fn error_shape(m: Map<Seq<char>, JsonKind>) -> Option<(Seq<char>, Option<Seq<char>>)> {
    if m.contains_key("error"@) && m["error"@] is Text {
        if !m.contains_key("detail"@) || m["detail"@] is Null {
            Some((m["error"@]->Text_0, None))
        } else if m["detail"@] is Text {
            Some((m["error"@]->Text_0, Some(m["detail"@]->Text_0)))
        } else {
            None
        }
    } else {
        None
    }
}

impl RemoteFailure {
    pub open spec fn view_pair(self) -> (Seq<char>, Option<Seq<char>>) {
        (self.error@, match self.detail { Some(d) => Some(d@), None => None })
    }
}

/// Reads the envelope of a response text: its `result` member, and its error
/// where it has the error shape. It fails with a decode error exactly when the
/// text is not a JSON object.
pub fn parse_envelope(text: &str) -> (r: Result<RawEnvelope, ClientError>)
    ensures
        r is Err <==> json_members(text@) is None,
        r is Err ==> r->Err_0 is Decode && r->Err_0->Decode_0@ == unparsed_response(),
        r is Ok ==> (r->Ok_0.result is Some <==> json_members(text@)->Some_0.contains_key("result"@)),
        r is Ok ==> match r->Ok_0.failure {
            Some(f) => error_shape(json_members(text@)->Some_0) == Some(f.view_pair()),
            None => error_shape(json_members(text@)->Some_0) is None,
        },
{
    let mut obj = match parse_object(text) {
        Ok(m) => m,
        Err(_) => {
            return Err(ClientError::Decode(String::from_str("Failed to parse Anki-Connect response")));
        },
    };
    proof {
        reveal_strlit("result");
        reveal_strlit("error");
        reveal_strlit("detail");
    }
    assert("error"@[0] != "result"@[0]);
    assert("detail"@[0] != "result"@[0]);
    assert("detail"@[0] != "error"@[0]);
    let result = take_member(&mut obj, "result");
    let failure = match take_member(&mut obj, "error") {
        None => None,
        Some(ev) => match into_string(ev) {
            None => None,
            Some(error) => match take_member(&mut obj, "detail") {
                None => Some(RemoteFailure { error, detail: None }),
                Some(dv) => {
                    if dv.is_null() {
                        Some(RemoteFailure { error, detail: None })
                    } else {
                        match into_string(dv) {
                            Some(d) => Some(RemoteFailure { error, detail: Some(d) }),
                            None => None,
                        }
                    }
                },
            },
        },
    };
    Ok(RawEnvelope { result, failure })
}

/// Picks the shape of a response, the success shape first: `typed` is the
/// `result` member read as the type that the action returns, or `None` where
/// it does not read as that type. A response of neither shape is a decode
/// error.
pub fn resolve<T>(raw: RawEnvelope, typed: Option<T>) -> (r: Result<AnkiResponse<T>, ClientError>)
    ensures
        raw.result is Some && typed is Some ==> r == Ok::<AnkiResponse<T>, ClientError>(
            AnkiResponse::Success { result: typed->Some_0 }),
        !(raw.result is Some && typed is Some) && raw.failure is Some ==> r == Ok::<AnkiResponse<T>, ClientError>(
            AnkiResponse::Error { error: raw.failure->Some_0.error, detail: raw.failure->Some_0.detail }),
        !(raw.result is Some && typed is Some) && raw.failure is None ==> r is Err
            && r->Err_0 == ClientError::Decode(r->Err_0->Decode_0)
            && r->Err_0->Decode_0@ == unparsed_response(),
{
    if raw.result.is_some() {
        if let Some(v) = typed {
            return Ok(AnkiResponse::Success { result: v });
        }
    }
    match raw.failure {
        Some(f) => Ok(AnkiResponse::Error { error: f.error, detail: f.detail }),
        None => Err(ClientError::Decode(String::from_str("Failed to parse Anki-Connect response"))),
    }
}

/// The text of an error envelope: `error: detail`, or `error` alone where
/// there is no detail.
pub open spec fn remote_text(error: Seq<char>, detail: Option<Seq<char>>) -> Seq<char> {
    match detail {
        Some(d) => error + ": "@ + d,
        None => error,
    }
}

/// Writes the text of an error envelope.
pub fn remote_message(error: &str, detail: Option<&str>) -> (r: String)
    ensures
        r@ == remote_text(error@, match detail { Some(d) => Some(d@), None => None }),
{
    let mut r = String::from_str(error);
    match detail {
        Some(d) => {
            r.append(": ");
            r.append(d);
        },
        None => {},
    }
    r
}

impl<T> AnkiResponse<T> {
    /// The result of a success envelope, or a remote error that carries the
    /// text of an error envelope.
    pub fn into_result(self) -> (r: Result<T, ClientError>)
        ensures
            match self {
                AnkiResponse::Success { result } => r == Ok::<T, ClientError>(result),
                AnkiResponse::Error { error, detail } => r is Err
                    && r->Err_0 == ClientError::Remote(r->Err_0->Remote_0)
                    && r->Err_0->Remote_0@ == remote_text(error@, match detail { Some(d) => Some(d@), None => None }),
            },
    {
        match self {
            AnkiResponse::Success { result } => Ok(result),
            AnkiResponse::Error { error, detail } => {
                let m = match &detail {
                    Some(d) => remote_message(error.as_str(), Some(d.as_str())),
                    None => remote_message(error.as_str(), None),
                };
                Err(ClientError::Remote(m))
            },
        }
    }
}

} // verus!
