//! Error taxonomy: one constructor per failure kind, each carrying the
//! context its diagnostic message needs.

use vstd::prelude::*;

verus! {

/// A failure of the run or of one line.
///
/// `ParseError` (a format mismatch, carrying the offending line) and
/// `TimestampParseError` (carrying the offending capture) are per-line
/// recoverable; `SerializationError` is per-line recoverable too;
/// `IoError` is a fatal transport failure.
#[derive(Debug, Clone, PartialEq)]
pub enum RedeyeError {
    IoError(String),
    SerializationError(String),
    TimestampParseError(String),
    ParseError(String),
}

pub type RedeyeResult<T> = Result<T, RedeyeError>;

/// The human-readable description of a failure.
pub open spec fn message_of(e: RedeyeError) -> Seq<char> {
    match e {
        RedeyeError::IoError(m) => "I/O error: "@ + m@,
        RedeyeError::SerializationError(m) => "Serialization error: "@ + m@,
        RedeyeError::TimestampParseError(m) => "Invalid timestamp: "@ + m@,
        RedeyeError::ParseError(l) => "Invalid log line: "@ + l@,
    }
}

/// A diagnostic line as written to the error stream, with its severity
/// prefix.
pub open spec fn warning_of(e: RedeyeError) -> Seq<char> {
    "redeye: WARNING: "@ + message_of(e)
}

impl RedeyeError {
    /// Render the human-readable description of this failure.
    pub fn message(&self) -> (r: String)
        ensures
            r@ == message_of(*self),
    {
        match self {
            RedeyeError::IoError(m) => {
                let mut s = String::from_str("I/O error: ");
                s.append(m.as_str());
                s
            },
            RedeyeError::SerializationError(m) => {
                let mut s = String::from_str("Serialization error: ");
                s.append(m.as_str());
                s
            },
            RedeyeError::TimestampParseError(m) => {
                let mut s = String::from_str("Invalid timestamp: ");
                s.append(m.as_str());
                s
            },
            RedeyeError::ParseError(l) => {
                let mut s = String::from_str("Invalid log line: ");
                s.append(l.as_str());
                s
            },
        }
    }

    /// Render the diagnostic line for this failure, severity prefix
    /// included.
    pub fn warning_line(&self) -> (r: String)
        ensures
            r@ == warning_of(*self),
    {
        let mut s = String::from_str("redeye: WARNING: ");
        let m = self.message();
        s.append(m.as_str());
        proof {
            assert(s@ =~= warning_of(*self));
        }
        s
    }
}

} // verus!
