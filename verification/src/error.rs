//! The error taxonomy of the pipeline.  Per-record malformation is never
//! an error — malformed records are skipped — so these cover only the
//! terminal conditions: unreadable input, an undecodable document, and a
//! result bundle without its issues array.

use vstd::prelude::*;
use vstd::string::StringExecFns;

verus! {

#[derive(Debug)]
pub enum ParseError {
    /// The input could not be read (raised by the caller that does the
    /// reading, never by the parsers themselves).
    IoError(String),
    /// The document is not valid JSON.
    JsonError(String),
    /// No warnings were found where some were required.
    NoWarnings,
    /// The document is JSON but lacks the required structure.
    InvalidFormat(String),
    /// A baseline comparison could not be carried out.
    BaselineError(String),
}

impl ParseError {
    /// A short description of the error.
    pub fn message(&self) -> (r: String)
        ensures
            match self {
                ParseError::IoError(m) => r@ == "failed to read input: "@ + m@,
                ParseError::JsonError(m) => r@ == "failed to parse JSON: "@ + m@,
                ParseError::NoWarnings => r@ == "no warnings found in input"@,
                ParseError::InvalidFormat(m) => r@ == "invalid format: "@ + m@,
                ParseError::BaselineError(m) => r@ == "baseline comparison failed: "@ + m@,
            },
    {
        match self {
            ParseError::IoError(m) => {
                let mut s = "failed to read input: ".to_owned();
                s.append(m.as_str());
                s
            },
            ParseError::JsonError(m) => {
                let mut s = "failed to parse JSON: ".to_owned();
                s.append(m.as_str());
                s
            },
            ParseError::NoWarnings => "no warnings found in input".to_owned(),
            ParseError::InvalidFormat(m) => {
                let mut s = "invalid format: ".to_owned();
                s.append(m.as_str());
                s
            },
            ParseError::BaselineError(m) => {
                let mut s = "baseline comparison failed: ".to_owned();
                s.append(m.as_str());
                s
            },
        }
    }
}

} // verus!
