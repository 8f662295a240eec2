//! What an upload session reports: progress, the finished artifact, errors.

use crate::text::{decimal, decimal_text};
use reqwest::StatusCode;
use vstd::prelude::*;
use vstd::string::StringExecFns;

verus! {

/// How far an upload has come. `bytes_uploaded` counts the bytes whose
/// transfer was notified; `total_bytes` is the size of the file.
#[derive(Clone, Copy, Debug, PartialEq, Eq, Structural)]
pub struct ChunkedUploadProgress {
    pub bytes_uploaded: u64,
    pub total_bytes: u64,
}

impl Default for ChunkedUploadProgress {
    fn default() -> (r: Self)
        ensures
            r.bytes_uploaded == 0,
            r.total_bytes == 0,
    {
        ChunkedUploadProgress { bytes_uploaded: 0, total_bytes: 0 }
    }
}

/// The durable record that the remote service creates when a session is
/// finalized.
#[derive(Clone, Debug, PartialEq, Eq)]
pub struct ArtifactRef {
    pub id: String,
    pub key: Option<String>,
}

/// One element of the sequence that an upload hands to its consumer.
#[derive(Clone, Debug, PartialEq, Eq)]
pub enum UploadEvent {
    Progress(ChunkedUploadProgress),
    Complete(ArtifactRef),
}

/// Why a session ended without an artifact.
#[derive(Clone, Debug, PartialEq, Eq)]
pub enum SessionError {
    /// The remote service refused to open a session.
    InitFailed { status: u16, body: String },
    /// The remote service refused a part.
    PartFailed { part_number: u64, status: u16, body: String },
    /// The remote service did not turn the uploaded parts into an artifact.
    FinalizeFailed { detail: String },
    /// The local file could not be read.
    Io { detail: String },
    /// A request did not reach the remote service, or its answer could not
    /// be read.
    Transport { detail: String },
}

/// Whether an HTTP status code is in the success class, 200 to 299.
pub open spec fn is_success_status(status: u16) -> bool {
    200 <= status < 300
}

/// Whether an HTTP status code is in the success class, 200 to 299.
pub fn status_is_success(status: u16) -> (ok: bool)
    ensures
        ok == is_success_status(status),
{
    200 <= status && status < 300
}

/// Judges the answer to a request that opens a session: a success status
/// passes, any other becomes `InitFailed` with the status and body.
pub fn check_init_response(status: u16, body: String) -> (r: Result<(), SessionError>)
    ensures
        is_success_status(status) ==> r is Ok,
        !is_success_status(status) ==> r == Err::<(), SessionError>(
            SessionError::InitFailed { status, body },
        ),
{
    if status_is_success(status) {
        Ok(())
    } else {
        Err(SessionError::InitFailed { status, body })
    }
}

/// Judges the answer to the upload of part `part_number`: a success status
/// passes, any other becomes `PartFailed` with the part, status and body.
pub fn check_part_response(part_number: u64, status: u16, body: String) -> (r: Result<
    (),
    SessionError,
>)
    ensures
        is_success_status(status) ==> r is Ok,
        !is_success_status(status) ==> r == Err::<(), SessionError>(
            SessionError::PartFailed { part_number, status, body },
        ),
{
    if status_is_success(status) {
        Ok(())
    } else {
        Err(SessionError::PartFailed { part_number, status, body })
    }
}

/// The canonical reason phrase that the `http` crate has for a status
/// code, if it has one. It is a function of the code alone.
pub uninterp spec fn canonical_reason_of(status: u16) -> Option<Seq<char>>;

/// The text that an optional string holds.
pub open spec fn option_text(text: Option<String>) -> Option<Seq<char>> {
    match text {
        Some(text) => Some(text@),
        None => None,
    }
}

/// Calls `StatusCode::canonical_reason` on the status code of that number.
/// The contract names the result [`canonical_reason_of`] the number. The
/// numbers outside 100 to 999, of which there is no status code, are left
/// out.
#[verifier::external_body]
fn canonical_reason(status: u16) -> (reason: Option<String>)
    requires
        100 <= status <= 999,
    ensures
        option_text(reason) == canonical_reason_of(status),
{
    match StatusCode::from_u16(status) {
        Ok(code) => code.canonical_reason().map(String::from),
        Err(_) => None,
    }
}

/// What stands for the reason phrase of a status code that has none.
pub const UNKNOWN_STATUS: &'static str = "<unknown status code>";

/// A status as it is written in a message: the number, a space, and the
/// reason phrase, or [`UNKNOWN_STATUS`] in its place.
pub open spec fn status_line_text(status: u16, reason: Option<Seq<char>>) -> Seq<char> {
    decimal_text(status as nat) + seq![' '] + match reason {
        Some(phrase) => phrase,
        None => UNKNOWN_STATUS@,
    }
}

/// The reason phrase that goes with a number: that of the status code of
/// the number, and none for a number that is no status code.
pub open spec fn reason_of(status: u16) -> Option<Seq<char>> {
    if 100 <= status <= 999 {
        canonical_reason_of(status)
    } else {
        None
    }
}

/// Writes a status with the reason phrase it was found to have.
pub fn status_line_with(status: u16, reason: Option<String>) -> (line: String)
    ensures
        line@ == status_line_text(status, option_text(reason)),
{
    proof {
        reveal_strlit(" ");
    }
    let mut line: String = decimal(status as u64);
    line.append(" ");
    match reason {
        Some(phrase) => line.append(phrase.as_str()),
        None => line.append(UNKNOWN_STATUS),
    }
    assert(line@ =~= status_line_text(status, option_text(reason)));
    line
}

/// Writes a status as it stands in a message.
pub fn status_line(status: u16) -> (line: String)
    ensures
        line@ == status_line_text(status, reason_of(status)),
{
    let reason: Option<String> = if 100 <= status && status <= 999 {
        canonical_reason(status)
    } else {
        None
    };
    status_line_with(status, reason)
}

impl SessionError {
    /// The message of an error, as it is shown to the user.
    pub open spec fn spec_message(self) -> Seq<char> {
        match self {
            SessionError::InitFailed { status, body } => "Failed to initialize chunked upload: "@
                + status_line_text(status, reason_of(status)) + " - "@ + body@,
            SessionError::PartFailed { part_number, status, body } => "Failed to upload part "@
                + decimal_text(part_number as nat) + ": "@ + status_line_text(
                status,
                reason_of(status),
            ) + " - "@ + body@,
            SessionError::FinalizeFailed { detail } => "Failed to create dataset: "@ + detail@,
            SessionError::Io { detail } => detail@,
            SessionError::Transport { detail } => detail@,
        }
    }

    /// The message of an error, as it is shown to the user.
    pub fn message(&self) -> (message: String)
        ensures
            message@ == self.spec_message(),
    {
        match self {
            SessionError::InitFailed { status, body } => {
                let mut message: String = String::from_str("Failed to initialize chunked upload: ");
                let line: String = status_line(*status);
                message.append(line.as_str());
                message.append(" - ");
                message.append(body.as_str());
                assert(message@ =~= self.spec_message());
                message
            },
            SessionError::PartFailed { part_number, status, body } => {
                let mut message: String = String::from_str("Failed to upload part ");
                let number: String = decimal(*part_number);
                message.append(number.as_str());
                message.append(": ");
                let line: String = status_line(*status);
                message.append(line.as_str());
                message.append(" - ");
                message.append(body.as_str());
                assert(message@ =~= self.spec_message());
                message
            },
            SessionError::FinalizeFailed { detail } => {
                let mut message: String = String::from_str("Failed to create dataset: ");
                message.append(detail.as_str());
                message
            },
            SessionError::Io { detail } => detail.clone(),
            SessionError::Transport { detail } => detail.clone(),
        }
    }
}

} // verus!
