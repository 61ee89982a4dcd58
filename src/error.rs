use vstd::prelude::*;

verus! {

/// The error object that the service sends back with a non-success status.
pub struct ApiError {
    pub message: String,
    pub error_type: Option<String>,
    pub param: Option<String>,
    pub code: Option<String>,
}

/// Every failure of the client surfaces as exactly one of these kinds.
pub enum OpenAIError {
    /// A required part of the configuration is missing or unusable.
    Configuration(String),
    /// A file that a request refers to could not be read.
    Io(String),
    /// The connection failed or was cut.
    Transport(String),
    /// A body did not have the expected shape.
    Deserialization(String),
    /// The service answered with an error of its own.
    Api(ApiError),
    /// The service answered with a non-success status and no error object:
    /// the raw status and body text.
    ApiStatus { status: u16, body: String },
    /// Retryable failures went on past the retry budget; holds the last one.
    RetryExhausted(Box<OpenAIError>),
    /// The caller asked for a combination that cannot be served.
    InvalidArgument(String),
}

} // verus!
