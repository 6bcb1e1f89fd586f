//! Construction of the request targets.
//!
//! Every record of the remote API lives under `{base}/api/resource/`.
//! A whole document type is addressed by `{base}/api/resource/{doctype}`,
//! a single named record by `{base}/api/resource/{doctype}/{name}`.

use vstd::prelude::*;
use vstd::string::StringExecFns;

verus! {

/// The path segment under which every document resource lives.
pub open spec fn api_prefix() -> Seq<char> {
    "/api/resource/"@
}

/// The target that addresses a document type as a whole (used when the
/// server assigns the record name itself).
pub open spec fn collection_url_spec(base: Seq<char>, doctype: Seq<char>) -> Seq<char> {
    base + api_prefix() + doctype
}

/// The target that addresses one named record of a document type.
pub open spec fn resource_url_spec(base: Seq<char>, doctype: Seq<char>, name: Seq<char>) -> Seq<char> {
    base + api_prefix() + doctype + "/"@ + name
}

/// Builds `{base}/api/resource/{doctype}`.
pub fn collection_url(base: &str, doctype: &str) -> (r: String)
    ensures
        r@ == collection_url_spec(base@, doctype@),
{
    let mut url = base.to_owned();
    url.append("/api/resource/");
    url.append(doctype);
    url
}

/// Builds `{base}/api/resource/{doctype}/{name}`.
pub fn resource_url(base: &str, doctype: &str, name: &str) -> (r: String)
    ensures
        r@ == resource_url_spec(base@, doctype@, name@),
{
    let mut url = base.to_owned();
    url.append("/api/resource/");
    url.append(doctype);
    url.append("/");
    url.append(name);
    url
}

/// Law: the target of an insertion is exactly the target of an update
/// with the trailing `/{name}` segment removed.
pub proof fn lemma_collection_url_omits_name(base: Seq<char>, doctype: Seq<char>, name: Seq<char>)
    ensures
        resource_url_spec(base, doctype, name) == collection_url_spec(base, doctype) + "/"@ + name,
{
}

} // verus!
