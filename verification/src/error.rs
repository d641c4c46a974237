//! The library's error taxonomy. Transport and API failures are fatal and
//! propagate; an unknown tool name is reported back into the transcript and is
//! therefore not an error here.
use vstd::prelude::*;

verus! {

use vstd::string::StringExecFns;

#[derive(Debug, Clone)]
pub enum OllamaError {
    /// No API key was supplied by flag or environment.
    MissingApiKey,
    /// A network or transport failure reaching a collaborator.
    RequestFailed(String),
    /// A collaborator answered with something the caller cannot use, or the
    /// model supplied malformed tool arguments.
    InvalidResponse(String),
    /// A collaborator answered with a non-success status.
    ApiError { status: u16, message: String },
    /// A fetch target that is not an absolute http(s) URL.
    InvalidUrl(String),
    SerializationError(String),
    ConfigError(String),
}

/// The human-readable description of an error.
pub open spec fn spec_message(e: OllamaError) -> Seq<char> {
    match e {
        OllamaError::MissingApiKey => {
            "API key not found. Set OLLAMA_API_KEY environment variable or use --api-key flag"@
        },
        OllamaError::RequestFailed(m) => "HTTP request failed: "@ + m@,
        OllamaError::InvalidResponse(m) => "Invalid API response: "@ + m@,
        OllamaError::ApiError { status, message } => {
            "API returned error: "@ + crate::text::dec_digits(status as nat) + " - "@ + message@
        },
        OllamaError::InvalidUrl(m) => "Invalid URL: "@ + m@,
        OllamaError::SerializationError(m) => "Serialization error: "@ + m@,
        OllamaError::ConfigError(m) => "Configuration error: "@ + m@,
    }
}

impl OllamaError {
    /// Renders the error for display to the caller.
    pub fn message(&self) -> (r: String)
        ensures
            r@ == spec_message(*self),
    {
        match self {
            OllamaError::MissingApiKey => {
                let r = String::from_str(
                    "API key not found. Set OLLAMA_API_KEY environment variable or use --api-key flag",
                );
                r
            },
            OllamaError::RequestFailed(m) => {
                let r = String::from_str("HTTP request failed: ");
                r.concat(m.as_str())
            },
            OllamaError::InvalidResponse(m) => {
                let r = String::from_str("Invalid API response: ");
                r.concat(m.as_str())
            },
            OllamaError::ApiError { status, message } => {
                let mut r = String::from_str("API returned error: ");
                let n = crate::text::decimal_string(*status as u64);
                r.append(n.as_str());
                r.append(" - ");
                r.append(message.as_str());
                r
            },
            OllamaError::InvalidUrl(m) => {
                let r = String::from_str("Invalid URL: ");
                r.concat(m.as_str())
            },
            OllamaError::SerializationError(m) => {
                let r = String::from_str("Serialization error: ");
                r.concat(m.as_str())
            },
            OllamaError::ConfigError(m) => {
                let r = String::from_str("Configuration error: ");
                r.concat(m.as_str())
            },
        }
    }
}

} // verus!
