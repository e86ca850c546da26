//! The kinds of failure that stop an identity from being assembled.
use vstd::prelude::*;

verus! {

/// Why a source of identity data could not be used.
#[derive(Clone, Copy, Debug, PartialEq, Eq, Structural)]
pub enum ErrorKind {
    /// The source could not be read.
    IoError,
    /// The source was read but is malformed or lacks the expected field.
    ParseError,
    /// The booted-system status interface failed.
    ExternalQueryError,
}

} // verus!
