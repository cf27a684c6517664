//! Error kinds reported by the sourcing pipeline.

use vstd::prelude::*;

verus! {

/// Everything the pipeline can fail with. Every operation returns a
/// `Result` carrying one of these instead of aborting, and the driver
/// treats any failure as fatal to the whole render.
#[derive(Debug)]
pub enum Error {
    /// A command-line mapping token had no `:` separator. Carries the
    /// offending token.
    MalformedMapping(String),
    /// A file-backed source failed to open or read. Carries the
    /// underlying description.
    IoError(String),
    /// Structured data (a metadata block, a JSON or YAML document, or a
    /// primitive literal) failed to decode. Carries a description of the
    /// offending content.
    DecodeError(String),
}

impl Error {
    /// A human-readable description of the failure, for surfacing by the
    /// host program.
    pub fn description(&self) -> (r: &String)
        ensures
            r@ == self.text(),
    {
        match self {
            Error::MalformedMapping(s) => s,
            Error::IoError(s) => s,
            Error::DecodeError(s) => s,
        }
    }

    /// The text carried by the error, whatever its kind.
    pub closed spec fn text(&self) -> Seq<char> {
        match self {
            Error::MalformedMapping(s) => s@,
            Error::IoError(s) => s@,
            Error::DecodeError(s) => s@,
        }
    }
}

} // verus!
