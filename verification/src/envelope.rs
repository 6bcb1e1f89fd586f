//! The response envelope protocol, and the request envelope for writes.
//!
//! Every answer of the remote API is a JSON envelope.  For a fetch the
//! envelope is read in a fixed precedence order: an `exc_type` member
//! equal to the string `"DoesNotExistError"` means the record is absent
//! (not an error); failing that, an `exception` member means the server
//! rejected the call; failing that, a `data` member carries the payload,
//! and its absence makes the envelope malformed.  For a write only the
//! `exception` member matters: any other response is success.
//!
//! A write sends its payload wrapped as `{"data":<payload>}`; the exact
//! body text is pinned down here.

use vstd::prelude::*;
use vstd::string::StringExecFns;

use crate::json::clone_value;
use crate::json::field_of;
use crate::json::get_field;
use crate::json::json_error_text;
use crate::json::json_ok;
use crate::json::json_val;
use crate::json::parse_json;
use crate::json::render_value;
use crate::json::rendered;
use crate::json::str_content;
use crate::json::value_as_str;

verus! {

/// The failures an operation can surface.  Absence of a record is not
/// among them: a fetch reports it as a normal empty result.
pub enum ClientError {
    /// The transport failed before a response body was read.
    Transport(String),
    /// The response body was not valid JSON where one was required.
    Decode(String),
    /// The server reported an application error: the envelope carried an
    /// `exception` member, rendered here as text.
    RemoteException(String),
    /// The envelope carried neither an error signal nor a `data` member.
    MalformedResponse,
    /// The `data` member did not match the type the caller expected.
    Deserialization(String),
}

impl ClientError {
    /// A description of the failure; the exception case carries the
    /// server's own text.
    pub fn message(&self) -> (r: String)
        ensures
            self matches ClientError::Transport(m) ==> r@ == "transport error: "@ + m@,
            self matches ClientError::Decode(m) ==> r@ == "the response body is not valid JSON: "@ + m@,
            self matches ClientError::RemoteException(m) ==> r@ == "The response contains an exception: "@ + m@,
            self is MalformedResponse ==> r@ == "Missing 'data' field in response"@,
            self matches ClientError::Deserialization(m) ==> r@ == "the data field does not match the expected type: "@ + m@,
    {
        match self {
            ClientError::Transport(m) => {
                let mut s = "transport error: ".to_owned();
                s.append(m.as_str());
                s
            },
            ClientError::Decode(m) => {
                let mut s = "the response body is not valid JSON: ".to_owned();
                s.append(m.as_str());
                s
            },
            ClientError::RemoteException(m) => {
                let mut s = "The response contains an exception: ".to_owned();
                s.append(m.as_str());
                s
            },
            ClientError::MalformedResponse => "Missing 'data' field in response".to_owned(),
            ClientError::Deserialization(m) => {
                let mut s = "the data field does not match the expected type: ".to_owned();
                s.append(m.as_str());
                s
            },
        }
    }
}

/// Whether an envelope marks the record as absent: its `exc_type` member
/// is the JSON string `"DoesNotExistError"`.
pub open spec fn marks_absence(v: serde_json::Value) -> bool {
    match field_of(v, "exc_type"@) {
        Some(t) => str_content(t) == Some("DoesNotExistError"@),
        None => false,
    }
}

/// Reads a fetch response body.
///
/// The outcome follows the envelope precedence exactly: text that does
/// not parse is a decode failure; an envelope that marks absence yields
/// "no value", never an error, whatever else it carries; otherwise an
/// `exception` member fails the call with the member's rendering;
/// otherwise the `data` member is the payload, and its absence makes the
/// envelope malformed.
pub fn interpret_fetch_body(body: &str) -> (r: Result<Option<serde_json::Value>, ClientError>)
    ensures
        !json_ok(body@) ==> (r matches Err(e) && e matches ClientError::Decode(_)),
        json_ok(body@) && marks_absence(json_val(body@)) ==> (r matches Ok(p) && p is None),
        json_ok(body@) && !marks_absence(json_val(body@))
            && field_of(json_val(body@), "exception"@) is Some
            ==> (r matches Err(e) && e matches ClientError::RemoteException(m)
                && m@ == rendered(field_of(json_val(body@), "exception"@)->Some_0)),
        json_ok(body@) && !marks_absence(json_val(body@))
            && field_of(json_val(body@), "exception"@) is None
            && field_of(json_val(body@), "data"@) is Some
            ==> (r matches Ok(p) && p == Some(field_of(json_val(body@), "data"@)->Some_0)),
        json_ok(body@) && !marks_absence(json_val(body@))
            && field_of(json_val(body@), "exception"@) is None
            && field_of(json_val(body@), "data"@) is None
            ==> (r matches Err(e) && e is MalformedResponse),
{
    let parsed = parse_json(body);
    let v = match parsed {
        Ok(v) => v,
        Err(e) => {
            return Err(ClientError::Decode(json_error_text(&e)));
        },
    };
    if let Some(t) = get_field(&v, "exc_type") {
        if let Some(s) = value_as_str(t) {
            if s.to_owned() == "DoesNotExistError".to_owned() {
                return Ok(None);
            }
        }
    }
    if let Some(e) = get_field(&v, "exception") {
        return Err(ClientError::RemoteException(render_value(e)));
    }
    match get_field(&v, "data") {
        Some(d) => Ok(Some(clone_value(d))),
        None => Err(ClientError::MalformedResponse),
    }
}

/// Reads a write (update or insert) response body.
///
/// Only a parsed envelope with an `exception` member fails the call;
/// any other response, a body that is not JSON included, is success.
pub fn interpret_write_body(body: &str) -> (r: Result<(), ClientError>)
    ensures
        json_ok(body@) && field_of(json_val(body@), "exception"@) is Some
            ==> (r matches Err(e) && e matches ClientError::RemoteException(m)
                && m@ == rendered(field_of(json_val(body@), "exception"@)->Some_0)),
        !(json_ok(body@) && field_of(json_val(body@), "exception"@) is Some) ==> r is Ok,
{
    match parse_json(body) {
        Ok(v) => match get_field(&v, "exception") {
            Some(e) => Err(ClientError::RemoteException(render_value(e))),
            None => Ok(()),
        },
        Err(_) => Ok(()),
    }
}

/// The request envelope of a write: the payload under a single `data`
/// member.
pub open spec fn enveloped(payload: Seq<char>) -> Seq<char> {
    "{\"data\":"@ + payload + "}"@
}

/// Builds the exact body text `{"data":<payload>}` of a write, with the
/// payload in its compact rendering.
pub fn write_body(payload: &serde_json::Value) -> (r: String)
    ensures
        r@ == enveloped(rendered(*payload)),
{
    let mut body = "{\"data\":".to_owned();
    let rendered_payload = render_value(payload);
    body.append(rendered_payload.as_str());
    body.append("}");
    body
}

} // verus!
