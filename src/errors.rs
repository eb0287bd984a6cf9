//! Errors of the coordinator, each with a stable machine-readable code, an
//! HTTP status and a human-readable message.

use vstd::prelude::*;
use vstd::string::StringExecFns;
use crate::text::{chars_of, contains, decimal, has_infix, push_decimal};

verus! {

/// Every failure that an operation of the library can report.
#[derive(Debug)]
pub enum AppError {
    /// A required field is missing from the request.
    MissingField { field: String },
    /// Input is missing or malformed, or an operation has nothing to act on.
    ValidationError { message: String },
    /// A resource other than an upload session was not found.
    NotFoundError { message: String },
    /// A field holds an invalid value.
    InvalidField { field: String, reason: String },
    /// The declared file size is over the configured maximum.
    FileSizeExceeded { size: u64, max: u64 },
    /// No session has the given identifier.
    UploadNotFound { upload_id: String },
    /// The session is already completed.
    UploadAlreadyCompleted { upload_id: String },
    /// The session is cancelled.
    UploadCancelled { upload_id: String },
    /// The chunk index is over the configured maximum.
    InvalidChunkIndex { index: u16 },
    /// The chunk index was already accepted for the session.
    ChunkAlreadyUploaded { upload_id: String, index: u16 },
    /// The object-storage backend failed (open, part, complete or abort).
    R2Error { message: String },
    /// The configuration store failed.
    KvError { message: String },
    /// The session store failed.
    DatabaseError { message: String },
    /// The configuration is unusable.
    ConfigError { message: String },
    /// The caller is not permitted to perform the operation.
    AuthError { message: String },
    /// Too many requests.
    RateLimitExceeded,
    /// An unexpected internal failure.
    InternalError { message: String },
}

/// View of an error: the same variants with strings as character sequences.
pub enum ErrorView {
    MissingField { field: Seq<char> },
    ValidationError { message: Seq<char> },
    NotFoundError { message: Seq<char> },
    InvalidField { field: Seq<char>, reason: Seq<char> },
    FileSizeExceeded { size: u64, max: u64 },
    UploadNotFound { upload_id: Seq<char> },
    UploadAlreadyCompleted { upload_id: Seq<char> },
    UploadCancelled { upload_id: Seq<char> },
    InvalidChunkIndex { index: u16 },
    ChunkAlreadyUploaded { upload_id: Seq<char>, index: u16 },
    R2Error { message: Seq<char> },
    KvError { message: Seq<char> },
    DatabaseError { message: Seq<char> },
    ConfigError { message: Seq<char> },
    AuthError { message: Seq<char> },
    RateLimitExceeded,
    InternalError { message: Seq<char> },
}

impl View for AppError {
    type V = ErrorView;

    open spec fn view(&self) -> ErrorView {
        match self {
            AppError::MissingField { field } => ErrorView::MissingField { field: field@ },
            AppError::ValidationError { message } => ErrorView::ValidationError { message: message@ },
            AppError::NotFoundError { message } => ErrorView::NotFoundError { message: message@ },
            AppError::InvalidField { field, reason } => ErrorView::InvalidField {
                field: field@,
                reason: reason@,
            },
            AppError::FileSizeExceeded { size, max } => ErrorView::FileSizeExceeded {
                size: *size,
                max: *max,
            },
            AppError::UploadNotFound { upload_id } => ErrorView::UploadNotFound {
                upload_id: upload_id@,
            },
            AppError::UploadAlreadyCompleted { upload_id } => ErrorView::UploadAlreadyCompleted {
                upload_id: upload_id@,
            },
            AppError::UploadCancelled { upload_id } => ErrorView::UploadCancelled {
                upload_id: upload_id@,
            },
            AppError::InvalidChunkIndex { index } => ErrorView::InvalidChunkIndex { index: *index },
            AppError::ChunkAlreadyUploaded { upload_id, index } => ErrorView::ChunkAlreadyUploaded {
                upload_id: upload_id@,
                index: *index,
            },
            AppError::R2Error { message } => ErrorView::R2Error { message: message@ },
            AppError::KvError { message } => ErrorView::KvError { message: message@ },
            AppError::DatabaseError { message } => ErrorView::DatabaseError { message: message@ },
            AppError::ConfigError { message } => ErrorView::ConfigError { message: message@ },
            AppError::AuthError { message } => ErrorView::AuthError { message: message@ },
            AppError::RateLimitExceeded => ErrorView::RateLimitExceeded,
            AppError::InternalError { message } => ErrorView::InternalError { message: message@ },
        }
    }
}

/// Result type of the library's operations.
pub type AppResult<T> = Result<T, AppError>;

/// View of a result whose success value has a view.
pub open spec fn result_view<T: View>(r: Result<T, AppError>) -> Result<T::V, ErrorView> {
    match r {
        Ok(v) => Ok(v@),
        Err(e) => Err(e@),
    }
}

/// The HTTP status that reports an error.
pub open spec fn error_status(e: ErrorView) -> u16 {
    match e {
        ErrorView::MissingField { .. } => 400,
        ErrorView::ValidationError { .. } => 400,
        ErrorView::NotFoundError { .. } => 404,
        ErrorView::InvalidField { .. } => 400,
        ErrorView::FileSizeExceeded { .. } => 413,
        ErrorView::UploadNotFound { .. } => 404,
        ErrorView::UploadAlreadyCompleted { .. } => 409,
        ErrorView::UploadCancelled { .. } => 409,
        ErrorView::InvalidChunkIndex { .. } => 400,
        ErrorView::ChunkAlreadyUploaded { .. } => 409,
        ErrorView::R2Error { .. } => 502,
        ErrorView::KvError { .. } => 502,
        ErrorView::DatabaseError { .. } => 502,
        ErrorView::ConfigError { .. } => 500,
        ErrorView::AuthError { .. } => 401,
        ErrorView::RateLimitExceeded => 429,
        ErrorView::InternalError { .. } => 500,
    }
}

/// The stable machine-readable code of an error.
pub open spec fn error_code(e: ErrorView) -> Seq<char> {
    match e {
        ErrorView::MissingField { .. } => "MISSING_FIELD"@,
        ErrorView::ValidationError { .. } => "VALIDATION_ERROR"@,
        ErrorView::NotFoundError { .. } => "NOT_FOUND"@,
        ErrorView::InvalidField { .. } => "INVALID_FIELD"@,
        ErrorView::FileSizeExceeded { .. } => "FILE_TOO_LARGE"@,
        ErrorView::UploadNotFound { .. } => "UPLOAD_NOT_FOUND"@,
        ErrorView::UploadAlreadyCompleted { .. } => "UPLOAD_COMPLETED"@,
        ErrorView::UploadCancelled { .. } => "UPLOAD_CANCELLED"@,
        ErrorView::InvalidChunkIndex { .. } => "INVALID_CHUNK_INDEX"@,
        ErrorView::ChunkAlreadyUploaded { .. } => "CHUNK_ALREADY_UPLOADED"@,
        ErrorView::R2Error { .. } => "R2_ERROR"@,
        ErrorView::KvError { .. } => "KV_ERROR"@,
        ErrorView::DatabaseError { .. } => "DATABASE_ERROR"@,
        ErrorView::ConfigError { .. } => "CONFIG_ERROR"@,
        ErrorView::AuthError { .. } => "AUTH_ERROR"@,
        ErrorView::RateLimitExceeded => "RATE_LIMIT_EXCEEDED"@,
        ErrorView::InternalError { .. } => "INTERNAL_ERROR"@,
    }
}

/// The human-readable message of an error.
pub open spec fn error_message(e: ErrorView) -> Seq<char> {
    match e {
        ErrorView::MissingField { field } => "Missing required field: "@ + field,
        ErrorView::ValidationError { message } => message,
        ErrorView::NotFoundError { message } => message,
        ErrorView::InvalidField { field, reason } => "Invalid field '"@ + field + "': "@ + reason,
        ErrorView::FileSizeExceeded { size, max } => "File size "@ + decimal(size as nat)
            + " exceeds maximum allowed "@ + decimal(max as nat),
        ErrorView::UploadNotFound { upload_id } => "Upload not found: "@ + upload_id,
        ErrorView::UploadAlreadyCompleted { upload_id } => "Upload already completed: "@
            + upload_id,
        ErrorView::UploadCancelled { upload_id } => "Upload cancelled: "@ + upload_id,
        ErrorView::InvalidChunkIndex { index } => "Invalid chunk index: "@ + decimal(index as nat),
        ErrorView::ChunkAlreadyUploaded { upload_id, index } => "Chunk "@ + decimal(index as nat)
            + " already uploaded for upload "@ + upload_id,
        ErrorView::R2Error { message } => "Storage error: "@ + message,
        ErrorView::KvError { message } => "Configuration storage error: "@ + message,
        ErrorView::DatabaseError { message } => message,
        ErrorView::ConfigError { message } => "Configuration error: "@ + message,
        ErrorView::AuthError { message } => "Authentication error: "@ + message,
        ErrorView::RateLimitExceeded => "Rate limit exceeded. Please try again later."@,
        ErrorView::InternalError { message } => "Internal server error: "@ + message,
    }
}

/// `prefix` followed by `rest`.
fn joined(prefix: &str, rest: &str) -> (r: String)
    ensures
        r@ == prefix@ + rest@,
{
    let mut s = String::from_str(prefix);
    s.append(rest);
    s
}

/// The category of a runtime failure, decided on its message: `not found`
/// means the session store, `KV` or `kv` the configuration store, `R2` or
/// `bucket` the object-storage backend, anything else an internal failure.
pub open spec fn runtime_error_kind(message: Seq<char>) -> ErrorView {
    if has_infix(message, "not found"@) {
        ErrorView::DatabaseError { message }
    } else if has_infix(message, "KV"@) || has_infix(message, "kv"@) {
        ErrorView::KvError { message }
    } else if has_infix(message, "R2"@) || has_infix(message, "bucket"@) {
        ErrorView::R2Error { message }
    } else {
        ErrorView::InternalError { message }
    }
}

impl AppError {
    /// Classifies a failure of the runtime around the library by its message.
    pub fn from_runtime_message(message: String) -> (r: AppError)
        ensures
            r@ == runtime_error_kind(message@),
    {
        let t = chars_of(message.as_str());
        if contains(&t, &chars_of("not found")) {
            AppError::DatabaseError { message }
        } else if contains(&t, &chars_of("KV")) || contains(&t, &chars_of("kv")) {
            AppError::KvError { message }
        } else if contains(&t, &chars_of("R2")) || contains(&t, &chars_of("bucket")) {
            AppError::R2Error { message }
        } else {
            AppError::InternalError { message }
        }
    }

    /// HTTP status that reports the error.
    pub fn status_code(&self) -> (r: u16)
        ensures
            r == error_status(self@),
    {
        match self {
            AppError::MissingField { .. } => 400,
            AppError::ValidationError { .. } => 400,
            AppError::NotFoundError { .. } => 404,
            AppError::InvalidField { .. } => 400,
            AppError::FileSizeExceeded { .. } => 413,
            AppError::UploadNotFound { .. } => 404,
            AppError::UploadAlreadyCompleted { .. } => 409,
            AppError::UploadCancelled { .. } => 409,
            AppError::InvalidChunkIndex { .. } => 400,
            AppError::ChunkAlreadyUploaded { .. } => 409,
            AppError::R2Error { .. } => 502,
            AppError::KvError { .. } => 502,
            AppError::DatabaseError { .. } => 502,
            AppError::ConfigError { .. } => 500,
            AppError::AuthError { .. } => 401,
            AppError::RateLimitExceeded => 429,
            AppError::InternalError { .. } => 500,
        }
    }

    /// Stable machine-readable code of the error.
    pub fn code(&self) -> (r: &'static str)
        ensures
            r@ == error_code(self@),
    {
        match self {
            AppError::MissingField { .. } => "MISSING_FIELD",
            AppError::ValidationError { .. } => "VALIDATION_ERROR",
            AppError::NotFoundError { .. } => "NOT_FOUND",
            AppError::InvalidField { .. } => "INVALID_FIELD",
            AppError::FileSizeExceeded { .. } => "FILE_TOO_LARGE",
            AppError::UploadNotFound { .. } => "UPLOAD_NOT_FOUND",
            AppError::UploadAlreadyCompleted { .. } => "UPLOAD_COMPLETED",
            AppError::UploadCancelled { .. } => "UPLOAD_CANCELLED",
            AppError::InvalidChunkIndex { .. } => "INVALID_CHUNK_INDEX",
            AppError::ChunkAlreadyUploaded { .. } => "CHUNK_ALREADY_UPLOADED",
            AppError::R2Error { .. } => "R2_ERROR",
            AppError::KvError { .. } => "KV_ERROR",
            AppError::DatabaseError { .. } => "DATABASE_ERROR",
            AppError::ConfigError { .. } => "CONFIG_ERROR",
            AppError::AuthError { .. } => "AUTH_ERROR",
            AppError::RateLimitExceeded => "RATE_LIMIT_EXCEEDED",
            AppError::InternalError { .. } => "INTERNAL_ERROR",
        }
    }

    /// Human-readable message of the error.
    pub fn message(&self) -> (r: String)
        ensures
            r@ == error_message(self@),
    {
        match self {
            AppError::MissingField { field } => joined("Missing required field: ", field.as_str()),
            AppError::ValidationError { message } => message.clone(),
            AppError::NotFoundError { message } => message.clone(),
            AppError::InvalidField { field, reason } => {
                let mut s = joined("Invalid field '", field.as_str());
                s.append("': ");
                s.append(reason.as_str());
                s
            },
            AppError::FileSizeExceeded { size, max } => {
                let mut s = String::from_str("File size ");
                push_decimal(&mut s, *size);
                s.append(" exceeds maximum allowed ");
                push_decimal(&mut s, *max);
                s
            },
            AppError::UploadNotFound { upload_id } => joined("Upload not found: ", upload_id.as_str()),
            AppError::UploadAlreadyCompleted { upload_id } => joined(
                "Upload already completed: ",
                upload_id.as_str(),
            ),
            AppError::UploadCancelled { upload_id } => joined("Upload cancelled: ", upload_id.as_str()),
            AppError::InvalidChunkIndex { index } => {
                let mut s = String::from_str("Invalid chunk index: ");
                push_decimal(&mut s, *index as u64);
                s
            },
            AppError::ChunkAlreadyUploaded { upload_id, index } => {
                let mut s = String::from_str("Chunk ");
                push_decimal(&mut s, *index as u64);
                s.append(" already uploaded for upload ");
                s.append(upload_id.as_str());
                s
            },
            AppError::R2Error { message } => joined("Storage error: ", message.as_str()),
            AppError::KvError { message } => joined("Configuration storage error: ", message.as_str()),
            AppError::DatabaseError { message } => message.clone(),
            AppError::ConfigError { message } => joined("Configuration error: ", message.as_str()),
            AppError::AuthError { message } => joined("Authentication error: ", message.as_str()),
            AppError::RateLimitExceeded => String::from_str("Rate limit exceeded. Please try again later."),
            AppError::InternalError { message } => joined("Internal server error: ", message.as_str()),
        }
    }
}

} // verus!
