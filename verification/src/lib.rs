//! A minimal client library for a document-oriented REST API.
//!
//! A remote server stores records, each identified by a document type
//! ("doctype") and a name.  The server answers every call with a JSON
//! envelope that carries either a payload under `data`, an application
//! error under `exception`, or an `exc_type` marker whose value
//! `"DoesNotExistError"` stands for absence.
//!
//! This crate verifies the request construction (URLs and request
//! bodies) and the interpretation of the response envelope.  The HTTP
//! round trip itself is left to the caller.

pub mod client;
pub mod envelope;
pub mod http;
pub mod json;
pub mod secret;
pub mod urls;

pub use client::DocumentClient;
pub use client::Method;
pub use client::PreparedRequest;
pub use client::Settings;
pub use envelope::interpret_fetch_body;
pub use envelope::interpret_write_body;
pub use envelope::write_body;
pub use envelope::ClientError;
pub use urls::collection_url;
pub use urls::resource_url;
