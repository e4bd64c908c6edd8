//! The ways a request can fail.

use vstd::prelude::*;

verus! {

/// Why a request was refused. Every failure ends the request with nothing
/// changed and nothing transferred.
#[derive(Clone, Copy, Debug, PartialEq, Eq, Structural)]
pub enum ProxyError {
    /// The requester is not the registry's owner.
    NotOwner,
    /// The account that value should leave is not under the proxy's control.
    NotControlled,
    /// The action code names no kind of transfer.
    InvalidActionCode,
    /// The registry already holds as many managed accounts as it has room for.
    CapacityExceeded,
    /// The salt gives no address that is safe to use without a private key.
    DerivationFailure,
    /// Stored bytes do not have the layout of the record they should hold.
    DeserializationError,
}

} // verus!
