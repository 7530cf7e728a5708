use vstd::prelude::*;

verus! {

/// The failure taxonomy of the generation pipeline. Every failure is returned
/// as a typed value to the immediate caller; nothing is retried or swallowed.
#[derive(Debug)]
pub enum ApiError {
    /// A transport-level failure reaching the backend; holds the transport's
    /// own description.
    RequestFailed(String),
    /// No API key is configured.
    ApiKeyMissing,
    /// The backend explicitly rejected the request; the message is passed
    /// through verbatim.
    ApiError(String),
    /// The response body did not match the expected shape; holds an excerpt
    /// of the raw body, capped at 200 characters.
    ParseError(String),
    /// A well-formed response contained no usable image segment.
    NoImageGenerated,
    /// The caller supplied malformed base64 image data.
    InvalidImageData,
}

impl ApiError {
    /// The human-readable message the UI layer renders as-is.
    pub fn message(&self) -> (r: String)
        ensures
            match self {
                ApiError::RequestFailed(s) => r@ == "HTTP request failed: "@ + s@,
                ApiError::ApiKeyMissing => r@ == "API key not configured"@,
                ApiError::ApiError(s) => r@ == "API returned error: "@ + s@,
                ApiError::ParseError(s) => r@ == "Failed to parse response: "@ + s@,
                ApiError::NoImageGenerated => r@ == "No image generated"@,
                ApiError::InvalidImageData => r@ == "Invalid image data"@,
            },
    {
        match self {
            ApiError::RequestFailed(s) => String::from_str("HTTP request failed: ").concat(s.as_str()),
            ApiError::ApiKeyMissing => String::from_str("API key not configured"),
            ApiError::ApiError(s) => String::from_str("API returned error: ").concat(s.as_str()),
            ApiError::ParseError(s) => String::from_str("Failed to parse response: ").concat(s.as_str()),
            ApiError::NoImageGenerated => String::from_str("No image generated"),
            ApiError::InvalidImageData => String::from_str("Invalid image data"),
        }
    }
}

/// Failures of the key store around the library.
#[derive(Debug)]
pub enum KeyringError {
    /// The backing storage could not be reached; holds a description.
    AccessError(String),
    /// No API key is stored.
    KeyNotFound,
}

impl KeyringError {
    /// The human-readable message for this failure.
    pub fn message(&self) -> (r: String)
        ensures
            match self {
                KeyringError::AccessError(s) => r@ == "Failed to access storage: "@ + s@,
                KeyringError::KeyNotFound => r@ == "API key not found"@,
            },
    {
        match self {
            KeyringError::AccessError(s) => String::from_str("Failed to access storage: ").concat(s.as_str()),
            KeyringError::KeyNotFound => String::from_str("API key not found"),
        }
    }
}

} // verus!
