//! Error taxonomy of the library: input-validation failures are told apart
//! from operating-system failures, which carry the OS error code.
use vstd::prelude::*;

verus! {

/// A structured failure of a socket-layer operation.
///
/// `InvalidInput` covers inputs rejected before any system call is issued
/// (an empty address list, a zero-duration timeout). `UnsupportedFamily`
/// carries the family tag of a socket address that is neither IPv4 nor IPv6.
/// `AddrNotAvailable` reports an unbound association during multihomed
/// address enumeration. `Sys` carries a raw OS error code.
#[derive(Clone, Copy, Debug, PartialEq, Eq, Structural)]
pub enum SctpError {
    InvalidInput,
    UnsupportedFamily(u16),
    AddrNotAvailable,
    Sys(i32),
}

impl SctpError {
    /// A short description, for callers that print failures.
    pub fn message(&self) -> &'static str {
        match self {
            SctpError::InvalidInput => "invalid input",
            SctpError::UnsupportedFamily(_) => "unsupported address family",
            SctpError::AddrNotAvailable => "address not available",
            SctpError::Sys(_) => "system error",
        }
    }
}

} // verus!
