//! The trusted boundary around `serde_json`.
//!
//! The envelope protocol is decided over a handful of observations on a
//! parsed JSON document: whether the text parses at all, what a member
//! of the top-level object is, whether a value is a string, and how a
//! value renders back to text.  Each observation is given a name here,
//! and one trusted function per `serde_json` entry point relates the
//! call to those names.  Everything built on top of them is verified.

use vstd::prelude::*;

verus! {

#[verifier::external_type_specification]
#[verifier::external_body]
pub struct ExValue(serde_json::Value);

#[verifier::external_type_specification]
#[verifier::external_body]
pub struct ExJsonError(serde_json::Error);

/// Whether `serde_json` accepts the text as a JSON document.
pub uninterp spec fn json_ok(s: Seq<char>) -> bool;

/// The document that `serde_json` parses accepted text into.
pub uninterp spec fn json_val(s: Seq<char>) -> serde_json::Value;

/// The member under `key` of a JSON value, where the value is an object
/// that has that key; `None` otherwise.
pub uninterp spec fn field_of(v: serde_json::Value, key: Seq<char>) -> Option<serde_json::Value>;

/// The characters of a JSON string value; `None` where the value is not
/// a string.
pub uninterp spec fn str_content(v: serde_json::Value) -> Option<Seq<char>>;

/// The compact JSON rendering of a value.
pub uninterp spec fn rendered(v: serde_json::Value) -> Seq<char>;

/// Relies on `serde_json::from_str::<Value>`: whether the text parses,
/// and into which document, depends on the text alone.
#[verifier::external_body]
pub(crate) fn parse_json(s: &str) -> (r: Result<serde_json::Value, serde_json::Error>)
    ensures
        r is Ok <==> json_ok(s@),
        r matches Ok(v) ==> v == json_val(s@),
{
    serde_json::from_str(s)
}

/// Relies on `serde_json::Value::get` with a string index: `Some` exactly
/// when the value is an object that has the key.
#[verifier::external_body]
pub(crate) fn get_field<'a>(v: &'a serde_json::Value, key: &str) -> (r: Option<&'a serde_json::Value>)
    ensures
        r matches Some(f) ==> field_of(*v, key@) == Some(*f),
        r is None ==> field_of(*v, key@) is None,
{
    v.get(key)
}

/// Relies on `serde_json::Value::as_str`: `Some` of the content exactly
/// when the value is a JSON string.
#[verifier::external_body]
pub(crate) fn value_as_str<'a>(v: &'a serde_json::Value) -> (r: Option<&'a str>)
    ensures
        r matches Some(s) ==> str_content(*v) == Some(s@),
        r is None ==> str_content(*v) is None,
{
    v.as_str()
}

/// Relies on `serde_json`'s `Display` for `Value`: the compact rendering,
/// a function of the value alone.
#[verifier::external_body]
pub(crate) fn render_value(v: &serde_json::Value) -> (r: String)
    ensures
        r@ == rendered(*v),
{
    v.to_string()
}

/// Relies on `serde_json`'s `Clone` for `Value`: a deep copy equal to
/// its argument.
#[verifier::external_body]
pub(crate) fn clone_value(v: &serde_json::Value) -> (r: serde_json::Value)
    ensures
        r == *v,
{
    v.clone()
}

/// Relies on `serde_json`'s `Display` for `Error`: a description of the
/// parse failure.  Nothing is promised of its text.
#[verifier::external_body]
pub(crate) fn json_error_text(e: &serde_json::Error) -> String {
    e.to_string()
}

} // verus!
