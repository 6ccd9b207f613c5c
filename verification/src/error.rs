//! The errors of the stack itself.
use vstd::prelude::*;

verus! {

/// What went wrong.
#[derive(Debug, Clone, Copy, PartialEq, Eq, Structural)]
pub enum ErrorCode {
    /// The address is not one of the network interface
    NoNetworkInterface,
    /// The network interface failed
    StdIoError,
    /// The operation is not possible in the current phase, or for the current network type
    InvalidAction,
}

} // verus!
