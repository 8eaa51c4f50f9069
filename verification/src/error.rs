//! Error taxonomy of the library.

use vstd::prelude::*;

verus! {

/// Failure of a decode, a check, or a kernel conversation.
///
/// `Truncated` covers every malformed-data case: a buffer shorter than a
/// declared or required length. `Kernel` carries the positive `errno`
/// of a netlink ERROR message with a nonzero code, negated.
/// `InvalidPid` and `InvalidSequence` are protocol-integrity violations.
/// `NotFound` is the typed failure for an absent family, interface or
/// required attribute. `Utf8` is a string payload that is not valid UTF-8.
/// `NoIdentifier` is a request for a device that has no address.
#[derive(Clone, Copy, Debug, PartialEq, Eq, Structural)]
pub enum Error {
    Truncated,
    Utf8,
    InvalidPid,
    InvalidSequence,
    Kernel(i32),
    NotFound,
    NoIdentifier,
}

impl Error {
    /// The positive OS error number carried by a kernel-reported error.
    pub fn os_error_code(&self) -> (r: Option<i32>)
        ensures
            r == (match *self {
                Error::Kernel(code) => Some(code),
                _ => None::<i32>,
            }),
    {
        match *self {
            Error::Kernel(code) => Some(code),
            _ => None,
        }
    }
}

} // verus!
