//! The one error type of the library.

use crate::decoded::module::ByteRange;
use vstd::prelude::*;

verus! {

/// Why an operation failed.
#[derive(Clone, Copy, Debug, PartialEq, Eq)]
pub enum ErrorKind {
    /// A failure that the caller describes in the message alone.
    General,
    /// The validator refused the module.
    Validation,
    /// The bytes of a section could not be read.
    Decode,
    /// The module holds a section that is recognised but not handled.
    UnsupportedSection { id: u8, range: ByteRange },
}

/// Result type definition.
pub type WasmarinResult<T, E = WasmarinError> = Result<T, E>;

/// Error definition.
#[derive(Debug, PartialEq, Eq)]
pub struct WasmarinError {
    pub kind: ErrorKind,
    pub message: String,
}

impl WasmarinError {
    /// Creates a new general error with the given message.
    pub fn new(message: &str) -> (r: Self)
        ensures
            r.kind == ErrorKind::General,
            r.message@ == message@,
    {
        WasmarinError { kind: ErrorKind::General, message: message.to_owned() }
    }

    /// The error of a module that the validator refused, with the validator's
    /// words.
    pub fn validation(message: String) -> (r: Self)
        ensures
            r.kind == ErrorKind::Validation,
            r.message == message,
    {
        WasmarinError { kind: ErrorKind::Validation, message }
    }

    /// The error of a section whose bytes could not be read, with the reader's
    /// words.
    pub fn decode(message: String) -> (r: Self)
        ensures
            r.kind == ErrorKind::Decode,
            r.message == message,
    {
        WasmarinError { kind: ErrorKind::Decode, message }
    }

    /// The error of a section that is not handled, with its id and where it
    /// lies.
    pub fn unsupported_section(id: u8, range: ByteRange) -> (r: Self)
        ensures
            r.kind == (ErrorKind::UnsupportedSection { id, range }),
            r.message@ == "unsupported section"@,
    {
        WasmarinError {
            kind: ErrorKind::UnsupportedSection { id, range },
            message: "unsupported section".to_owned(),
        }
    }

    /// The words that describe the failure.
    pub fn message(&self) -> (r: &str)
        ensures
            r@ == self.message@,
    {
        self.message.as_str()
    }
}

} // verus!
