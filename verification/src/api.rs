//! The error surface of the decoding pipeline.

use vstd::prelude::*;

verus! {

/// A decode call fails in one of two ways: the byte buffer could not be
/// turned into text (wrong gzip stream or invalid UTF-8), or the text was
/// not a JSON document of the expected shape. The carried string is a
/// human-readable detail for observability.
#[derive(Debug, Clone)]
pub enum CaptureError {
    RequestDecodingError(String),
    RequestParsingError(String),
}

impl CaptureError {
    /// The diagnostic detail carried by the error.
    pub fn detail(&self) -> (r: &str)
        ensures
            r@ == match self {
                CaptureError::RequestDecodingError(d) => d@,
                CaptureError::RequestParsingError(d) => d@,
            },
    {
        match self {
            CaptureError::RequestDecodingError(d) => d.as_str(),
            CaptureError::RequestParsingError(d) => d.as_str(),
        }
    }
}

} // verus!
