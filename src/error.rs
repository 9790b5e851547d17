use vstd::prelude::*;

verus! {

/// Retry-after hint, in seconds, assumed for a throttled response that gave none.
pub const DEFAULT_RETRY_AFTER: u64 = 1;

/// A failed request as the API client reports it, held as plain values.
#[derive(Clone, Debug, PartialEq, Eq)]
pub enum ApiFailure {
    /// The HTTP exchange itself failed (connection, TLS, timeout).
    Transport(String),
    /// The HTTP client could not be set up.
    ClientSetup(String),
    /// Throttled, with the server's retry-after hint in seconds.
    RateLimited { retry_after: u64, detail: String },
    /// Throttled, without a readable retry-after hint.
    RateLimitedWithoutHint(String),
    /// The client gave up after its own retries.
    RetriesExhausted,
    NotFound,
    Forbidden,
    Unauthorized(String),
    /// A bad-request response with the server's field errors.
    BadRequest { status: u16, detail: String },
    /// A response with a status code the endpoint does not document.
    UnexpectedStatus { status: u16, detail: String },
    /// A response body that did not decode into the expected shape.
    InvalidResponse { error: String, body: String },
    /// A request body that could not be encoded.
    Serialize(String),
    /// Logout was asked of a session that did not log in.
    CannotLogout,
}

/// The fixed set of failure kinds handed to callers.
#[derive(Clone, Debug, PartialEq, Eq)]
pub enum ClassifiedError {
    Unauthorized,
    NotFound,
    ValidationFailed { detail: String },
    RateLimited { retry_after: u64 },
    TransportFailure { detail: String },
    SerializationFailure { detail: String },
}

/// The kind of a response status that the endpoint does not document.
pub open spec fn status_kind(status: u16, detail: String) -> ClassifiedError {
    if status == 401 || status == 403 {
        ClassifiedError::Unauthorized
    } else if status == 404 {
        ClassifiedError::NotFound
    } else if status == 429 {
        ClassifiedError::RateLimited { retry_after: DEFAULT_RETRY_AFTER }
    } else {
        ClassifiedError::ValidationFailed { detail }
    }
}

pub open spec fn classification(f: ApiFailure) -> ClassifiedError {
    match f {
        ApiFailure::Transport(d) => ClassifiedError::TransportFailure { detail: d },
        ApiFailure::ClientSetup(d) => ClassifiedError::TransportFailure { detail: d },
        ApiFailure::RateLimited { retry_after, .. } => ClassifiedError::RateLimited { retry_after },
        ApiFailure::RateLimitedWithoutHint(_) => ClassifiedError::RateLimited {
            retry_after: DEFAULT_RETRY_AFTER,
        },
        ApiFailure::RetriesExhausted => ClassifiedError::RateLimited {
            retry_after: DEFAULT_RETRY_AFTER,
        },
        ApiFailure::NotFound => ClassifiedError::NotFound,
        ApiFailure::Forbidden => ClassifiedError::Unauthorized,
        ApiFailure::Unauthorized(_) => ClassifiedError::Unauthorized,
        ApiFailure::BadRequest { detail, .. } => ClassifiedError::ValidationFailed { detail },
        ApiFailure::UnexpectedStatus { status, detail } => status_kind(status, detail),
        ApiFailure::InvalidResponse { error, .. } => ClassifiedError::SerializationFailure {
            detail: error,
        },
        ApiFailure::Serialize(d) => ClassifiedError::SerializationFailure { detail: d },
        ApiFailure::CannotLogout => ClassifiedError::Unauthorized,
    }
}

/// Maps a failed request to the kind that callers act on.
pub fn classify(f: ApiFailure) -> (r: ClassifiedError)
    ensures
        r == classification(f),
{
    match f {
        ApiFailure::Transport(d) => ClassifiedError::TransportFailure { detail: d },
        ApiFailure::ClientSetup(d) => ClassifiedError::TransportFailure { detail: d },
        ApiFailure::RateLimited { retry_after, .. } => ClassifiedError::RateLimited { retry_after },
        ApiFailure::RateLimitedWithoutHint(_) => ClassifiedError::RateLimited {
            retry_after: DEFAULT_RETRY_AFTER,
        },
        ApiFailure::RetriesExhausted => ClassifiedError::RateLimited {
            retry_after: DEFAULT_RETRY_AFTER,
        },
        ApiFailure::NotFound => ClassifiedError::NotFound,
        ApiFailure::Forbidden => ClassifiedError::Unauthorized,
        ApiFailure::Unauthorized(_) => ClassifiedError::Unauthorized,
        ApiFailure::BadRequest { detail, .. } => ClassifiedError::ValidationFailed { detail },
        ApiFailure::UnexpectedStatus { status, detail } => {
            if status == 401 || status == 403 {
                ClassifiedError::Unauthorized
            } else if status == 404 {
                ClassifiedError::NotFound
            } else if status == 429 {
                ClassifiedError::RateLimited { retry_after: DEFAULT_RETRY_AFTER }
            } else {
                ClassifiedError::ValidationFailed { detail }
            }
        },
        ApiFailure::InvalidResponse { error, .. } => ClassifiedError::SerializationFailure {
            detail: error,
        },
        ApiFailure::Serialize(d) => ClassifiedError::SerializationFailure { detail: d },
        ApiFailure::CannotLogout => ClassifiedError::Unauthorized,
    }
}


} // verus!
