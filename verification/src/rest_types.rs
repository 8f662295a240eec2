//! Bodies of the REST requests that open and abort an upload session.

use vstd::prelude::*;
use vstd::string::StringExecFns;

verus! {

/// A JSON value, carried through untouched.
#[verifier::external_type_specification]
#[verifier::external_body]
pub struct ExJsonValue(serde_json::Value);

/// Path, under the API's base URL, of the request that opens a session.
pub const INIT_CHUNKED_UPLOAD_ROUTE: &'static str = "v1/upload/init";

/// Path of the request that uploads one part.
pub const UPLOAD_PART_ROUTE: &'static str = "v1/upload/part";

/// Path of the request that aborts a session.
pub const ABORT_CHUNKED_UPLOAD_ROUTE: &'static str = "v1/upload/abort";

/// The content type under which datasets are uploaded.
pub const DATASET_CONTENT_TYPE: &'static str = "application/jsonl";

/// Body of the request that opens a session.
#[derive(Debug, Clone)]
pub struct InitChunkedUploadRequest {
    pub content_type: String,
    pub metadata: Option<serde_json::Value>,
    pub total_parts_count: u64,
}

/// Answer to the request that opens a session.
#[derive(Debug, Clone)]
pub struct InitChunkedUploadResponse {
    pub session_id: String,
}

/// Body of the request that aborts a session.
#[derive(Debug, Clone)]
pub struct AbortChunkedUploadRequest {
    pub session_id: String,
}

impl InitChunkedUploadRequest {
    /// The request that opens a session for `total_parts` parts of a
    /// dataset: its content type is [`DATASET_CONTENT_TYPE`], and it carries
    /// no metadata.
    pub fn for_dataset(total_parts: u64) -> (request: Self)
        ensures
            request.content_type@ == DATASET_CONTENT_TYPE@,
            request.metadata is None,
            request.total_parts_count == total_parts,
    {
        InitChunkedUploadRequest {
            content_type: String::from_str(DATASET_CONTENT_TYPE),
            metadata: None,
            total_parts_count: total_parts,
        }
    }
}

impl AbortChunkedUploadRequest {
    /// The request that aborts the session `session_id`.
    pub fn for_session(session_id: &str) -> (request: Self)
        ensures
            request.session_id@ == session_id@,
    {
        AbortChunkedUploadRequest { session_id: String::from_str(session_id) }
    }
}

} // verus!
