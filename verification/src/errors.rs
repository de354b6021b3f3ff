//! The error model: every way assembly or resolution can fail.

use vstd::prelude::*;
use vstd::string::*;

verus! {

/// One error kind for each place request construction can fail.
#[derive(Debug, Clone, PartialEq)]
pub enum ReqwestBuilderError {
    /// The value could not be converted to a structured document, or the
    /// document was not an object where one was required.
    SerializationError(String),
    /// A header name or value failed validation, or a header value was not
    /// a string; carries the offending key, the attempted value, and which
    /// check failed.
    HeaderError { key: String, value: String, source: String },
    /// The request URL could not be constructed.
    UrlError(String),
    /// A file could not be read while building an upload payload.
    IoError(String),
    /// A configuration-level inconsistency not otherwise classified.
    InvalidRequest(String),
}

/// The rendered text of an error, one line naming the kind and the detail.
pub open spec fn spec_message(e: ReqwestBuilderError) -> Seq<char> {
    match e {
        ReqwestBuilderError::SerializationError(m) => "Serialization error: "@ + m@,
        ReqwestBuilderError::HeaderError { key, value, source } =>
            "Header error for '"@ + key@ + "': '"@ + value@ + "' - "@ + source@,
        ReqwestBuilderError::UrlError(m) => "URL error: "@ + m@,
        ReqwestBuilderError::IoError(m) => "I/O error: "@ + m@,
        ReqwestBuilderError::InvalidRequest(m) => "Invalid request: "@ + m@,
    }
}

impl ReqwestBuilderError {
    /// A human-readable description of the error.
    pub fn message(&self) -> (r: String)
        ensures
            r@ == spec_message(*self),
    {
        match self {
            ReqwestBuilderError::SerializationError(m) => {
                let mut s = String::from_str("Serialization error: ");
                s.append(m.as_str());
                s
            },
            ReqwestBuilderError::HeaderError { key, value, source } => {
                let mut s = String::from_str("Header error for '");
                s.append(key.as_str());
                s.append("': '");
                s.append(value.as_str());
                s.append("' - ");
                s.append(source.as_str());
                s
            },
            ReqwestBuilderError::UrlError(m) => {
                let mut s = String::from_str("URL error: ");
                s.append(m.as_str());
                s
            },
            ReqwestBuilderError::IoError(m) => {
                let mut s = String::from_str("I/O error: ");
                s.append(m.as_str());
                s
            },
            ReqwestBuilderError::InvalidRequest(m) => {
                let mut s = String::from_str("Invalid request: ");
                s.append(m.as_str());
                s
            },
        }
    }
}

} // verus!
