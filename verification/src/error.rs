//! Error taxonomy of the client library.
use vstd::prelude::*;

verus! {

/// Error type returned by every operation of the library.
///
/// `Operation` carries a human-readable description of a transport,
/// decoding or encoding failure. `UrlParse` reports a base address or a
/// joined URL that is not a valid absolute URL. `InvalidArgument` reports
/// a caller-supplied precondition violation, such as an empty message
/// history or a missing local file.
#[derive(Debug, Clone)]
pub enum LlamaEdgeError {
    /// Errors in general operation.
    Operation(String),
    /// Errors in URL parsing.
    UrlParse(String),
    /// Errors in invalid argument.
    InvalidArgument(String),
}

impl LlamaEdgeError {
    /// A human-readable description of the error.
    pub fn message(&self) -> (r: String)
        ensures
            r@ == self.spec_message(),
    {
        match self {
            LlamaEdgeError::Operation(m) => m.clone(),
            LlamaEdgeError::UrlParse(m) => m.clone(),
            LlamaEdgeError::InvalidArgument(m) => m.clone(),
        }
    }

    /// The description carried by the error, as a sequence of characters.
    pub open spec fn spec_message(&self) -> Seq<char> {
        match self {
            LlamaEdgeError::Operation(m) => m@,
            LlamaEdgeError::UrlParse(m) => m@,
            LlamaEdgeError::InvalidArgument(m) => m@,
        }
    }
}

} // verus!
