//! The client: its configuration, and the requests it prepares.
//!
//! A `DocumentClient` owns an HTTP transport handle and a `Settings` value (base
//! URL and basic-auth credential pair).  Each of the three operations —
//! fetch one record, update one record, insert a new one — is a single
//! request/response exchange: the request target, method and body are
//! prepared here, fully determined by the settings and the arguments;
//! the caller sends the prepared request with the credentials attached
//! and hands the response body to the envelope interpretation.

use vstd::prelude::*;

use crate::envelope::enveloped;
use crate::http::new_http_client;
use crate::json::rendered;
use crate::secret::expose_secret;
use crate::secret::SecretHolder;
use crate::secret::new_secret;
use crate::secret::secret_chars;
use crate::urls::collection_url;
use crate::urls::collection_url_spec;
use crate::urls::resource_url;
use crate::urls::resource_url_spec;

verus! {

/// The configuration of a client: where the API lives and the basic-auth
/// credential pair.  The secret stays wrapped until the moment a request
/// is authenticated.
pub struct Settings {
    /// The base URL, used verbatim as the prefix of every target.
    pub url: String,
    /// The non-sensitive half of the credential pair.
    pub key: String,
    /// The sensitive half; its holder redacts accidental display.
    pub secret: SecretHolder,
}

impl Settings {
    /// Bundles the base URL and the credential pair, wrapping the secret.
    pub fn new(url: String, key: String, secret: String) -> (r: Settings)
        ensures
            r.url == url,
            r.key == key,
            secret_chars(r.secret) == secret@,
    {
        Settings { url, key, secret: new_secret(secret) }
    }

    /// Reveals the credential secret — the one deliberate point of use,
    /// meant for attaching it to a request.
    pub fn secret_text(&self) -> (r: &String)
        ensures
            r@ == secret_chars(self.secret),
    {
        expose_secret(&self.secret)
    }
}

/// The HTTP method of a prepared request.
#[derive(Clone, Copy, PartialEq, Eq, Structural, Debug)]
pub enum Method {
    Get,
    Put,
    Post,
}

/// One request, fully determined before it is sent: method, target and
/// body.  The credentials are not copied in here; the sender reads them
/// from the settings when it authenticates the request.
pub struct PreparedRequest {
    /// The HTTP method.
    pub method: Method,
    /// The request target.
    pub url: String,
    /// The request body: the write envelope for a write, nothing for a
    /// fetch.
    pub body: Option<String>,
}

/// A client of the remote document API.
pub struct DocumentClient {
    /// The transport handle, safely shared between concurrent calls.
    pub http: reqwest::Client,
    /// The configuration, read-only after construction.
    pub settings: Settings,
}

impl DocumentClient {
    /// Builds a client with a transport handle of its own.
    pub fn new(s: Settings) -> (r: DocumentClient)
        ensures
            r.settings == s,
    {
        DocumentClient { http: new_http_client(), settings: s }
    }

    /// Builds a client around an existing transport handle, shared across
    /// client instances for pooling, or injected for tests.
    pub fn with_client(http: reqwest::Client, s: Settings) -> (r: DocumentClient)
        ensures
            r.http == http,
            r.settings == s,
    {
        DocumentClient { http, settings: s }
    }

    /// The request that fetches one named record: GET on the record's
    /// target, with no body.
    pub fn fetch_request(&self, doctype: &str, name: &str) -> (r: PreparedRequest)
        ensures
            r.method == Method::Get,
            r.url@ == resource_url_spec(self.settings.url@, doctype@, name@),
            r.body is None,
    {
        PreparedRequest {
            method: Method::Get,
            url: resource_url(self.settings.url.as_str(), doctype, name),
            body: None,
        }
    }

    /// The request that updates one named record: PUT on the record's
    /// target, the payload wrapped in the write envelope.
    pub fn update_request(&self, doctype: &str, name: &str, payload: &serde_json::Value) -> (r: PreparedRequest)
        ensures
            r.method == Method::Put,
            r.url@ == resource_url_spec(self.settings.url@, doctype@, name@),
            r.body matches Some(b) && b@ == enveloped(rendered(*payload)),
    {
        PreparedRequest {
            method: Method::Put,
            url: resource_url(self.settings.url.as_str(), doctype, name),
            body: Some(crate::envelope::write_body(payload)),
        }
    }

    /// The request that inserts a new record: POST on the doctype's
    /// collection target (the server assigns the name), the payload
    /// wrapped in the same write envelope as an update.
    pub fn insert_request(&self, doctype: &str, payload: &serde_json::Value) -> (r: PreparedRequest)
        ensures
            r.method == Method::Post,
            r.url@ == collection_url_spec(self.settings.url@, doctype@),
            r.body matches Some(b) && b@ == enveloped(rendered(*payload)),
    {
        PreparedRequest {
            method: Method::Post,
            url: collection_url(self.settings.url.as_str(), doctype),
            body: Some(crate::envelope::write_body(payload)),
        }
    }
}

} // verus!
