//! The canonical shapes of the remote resources, and the field extraction
//! the library's own logic needs from response bodies.
//!
//! One shape is defined per resource, with explicitly optional fields.
//! Nested JSON values (tools, metadata, message content) are carried as raw
//! JSON text. Decoding response bodies into these shapes is left to the
//! surrounding program; the library itself only ever reads single string
//! fields out of a body, through [`response_id`] and [`response_status`].

use vstd::prelude::*;
use crate::codec::json_str_field;
use crate::codec::str_field_of;
use crate::poll::is_waiting_status;
use crate::poll::status_is_waiting;

verus! {

/// An uploaded file, as the service reports it.
pub struct FileUploadResponse {
    pub id: String,
    pub object: String,
    pub bytes: u64,
    pub created_at: u64,
    pub filename: String,
    pub purpose: String,
}

/// An assistant, as the service reports it.
pub struct AssistantResponse {
    pub id: String,
    pub object: String,
    pub created_at: u64,
    pub name: Option<String>,
    pub description: Option<String>,
    pub model: String,
    pub instructions: Option<String>,
    /// Each tool as raw JSON text.
    pub tools: Vec<String>,
    pub file_ids: Vec<String>,
}

/// A thread, as the service reports it.
pub struct ThreadResponse {
    pub id: String,
    pub object: String,
    pub created_at: u64,
    /// The metadata object as raw JSON text, when present.
    pub metadata: Option<String>,
}

/// A message, as the service reports it.
pub struct MessageResponse {
    pub id: String,
    pub object: String,
    pub created_at: u64,
    pub thread_id: String,
    pub role: String,
    /// Each content part as raw JSON text.
    pub content: Vec<String>,
    pub file_ids: Vec<String>,
    pub assistant_id: Option<String>,
    pub run_id: Option<String>,
}

/// A run, as the service reports it. The `status` is opaque server state:
/// the library recognizes the two waiting values and treats every other
/// string as settling.
pub struct RunResponse {
    pub id: String,
    pub object: String,
    pub created_at: u64,
    pub thread_id: String,
    pub assistant_id: String,
    pub status: String,
    pub started_at: Option<u64>,
    pub expires_at: Option<u64>,
    pub completed_at: Option<u64>,
    pub model: String,
    pub instructions: Option<String>,
    /// Each tool as raw JSON text.
    pub tools: Vec<String>,
    pub file_ids: Vec<String>,
}

impl RunResponse {
    /// Whether this run is still being worked on.
    pub fn is_waiting(&self) -> (b: bool)
        ensures
            b == is_waiting_status(self.status@),
    {
        status_is_waiting(self.status.as_str())
    }
}

/// The `id` field of a response body, when the body is a JSON document
/// carrying one as a string.
pub fn response_id(body: &str) -> (r: Option<String>)
    ensures
        match r {
            Some(s) => str_field_of(body@, "id"@) == Some(s@),
            None => str_field_of(body@, "id"@) is None,
        },
{
    json_str_field(body, "id")
}

/// The `status` field of a response body, when the body is a JSON document
/// carrying one as a string.
pub fn response_status(body: &str) -> (r: Option<String>)
    ensures
        match r {
            Some(s) => str_field_of(body@, "status"@) == Some(s@),
            None => str_field_of(body@, "status"@) is None,
        },
{
    json_str_field(body, "status")
}

} // verus!
