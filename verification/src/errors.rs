//! The error taxonomy of the coordinator, and the mapping from an outcome to
//! the normalized `(status, body)` response handed back to the adapter layer.

use vstd::prelude::*;

verus! {

/// Everything that can go wrong while handling a request. Validation errors
/// are detected locally and map to 4xx statuses; backend and decompression
/// failures map to 5xx statuses.
#[derive(Debug, PartialEq, Eq)]
pub enum ApiError {
    /// The requested upload has size zero.
    InvalidSize,
    /// The plan would exceed the policy ceiling on chunk count.
    TooManyChunks,
    /// The submitted part proofs have a gap, a duplicate, a part number out of
    /// range, or an empty integrity tag.
    InvalidCompletionManifest,
    /// A required request field (such as the object key) is absent.
    MissingParameter,
    /// The requested presign action names no known operation.
    InvalidAction,
    /// The storage backend failed; the message is its diagnostic, unchanged.
    BackendError(String),
    /// The fetched payload is not a well-formed compressed stream.
    DecompressionError,
}

impl ApiError {
    /// The HTTP status class of this error: 400 for local validation
    /// failures, 500 for backend and payload failures.
    pub open spec fn spec_status(self) -> u16 {
        match self {
            ApiError::InvalidSize => 400,
            ApiError::TooManyChunks => 400,
            ApiError::InvalidCompletionManifest => 400,
            ApiError::MissingParameter => 400,
            ApiError::InvalidAction => 400,
            ApiError::BackendError(_) => 500,
            ApiError::DecompressionError => 500,
        }
    }

    /// The diagnostic text reported for this error.
    pub open spec fn spec_message(self) -> Seq<char> {
        match self {
            ApiError::InvalidSize => "Bad file size."@,
            ApiError::TooManyChunks => "Too many chunks! Try increasing your chunk size."@,
            ApiError::InvalidCompletionManifest => "Invalid completion manifest"@,
            ApiError::MissingParameter => "Missing key parameter"@,
            ApiError::InvalidAction => "Invalid action on S3"@,
            ApiError::BackendError(msg) => "Internal Server Error: "@ + msg@,
            ApiError::DecompressionError => "Failed to decompress object"@,
        }
    }

    pub fn status_code(&self) -> (s: u16)
        ensures
            s == self.spec_status(),
    {
        match self {
            ApiError::InvalidSize => 400,
            ApiError::TooManyChunks => 400,
            ApiError::InvalidCompletionManifest => 400,
            ApiError::MissingParameter => 400,
            ApiError::InvalidAction => 400,
            ApiError::BackendError(_) => 500,
            ApiError::DecompressionError => 500,
        }
    }

    pub fn message(&self) -> (m: String)
        ensures
            m@ == self.spec_message(),
    {
        match self {
            ApiError::InvalidSize => String::from_str("Bad file size."),
            ApiError::TooManyChunks => String::from_str(
                "Too many chunks! Try increasing your chunk size.",
            ),
            ApiError::InvalidCompletionManifest => String::from_str("Invalid completion manifest"),
            ApiError::MissingParameter => String::from_str("Missing key parameter"),
            ApiError::InvalidAction => String::from_str("Invalid action on S3"),
            ApiError::BackendError(msg) => String::from_str("Internal Server Error: ").concat(
                msg.as_str(),
            ),
            ApiError::DecompressionError => String::from_str("Failed to decompress object"),
        }
    }
}

/// The normalized response shape handed back to the adapter layer.
pub struct ResponseParts {
    pub status: u16,
    pub body: String,
}

/// Maps a handler outcome to its response: a successful body is returned with
/// status 200; an error is returned with its status class and its diagnostic
/// text as the body.
pub fn handle_response(result: Result<String, ApiError>) -> (resp: ResponseParts)
    ensures
        result matches Ok(body) ==> resp.status == 200 && resp.body == body,
        result matches Err(e) ==> resp.status == e.spec_status() && resp.body@ == e.spec_message(),
{
    match result {
        Ok(body) => ResponseParts { status: 200, body },
        Err(e) => {
            let status = e.status_code();
            let body = e.message();
            ResponseParts { status, body }
        },
    }
}

} // verus!
