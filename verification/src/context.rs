//! What a request brings: the proxy system's own identity and the accounts
//! the request names.

use vstd::prelude::*;
use crate::address::Address;
use crate::state::{Account, PDAAccount, ProxyAccount, TokenAccount};

verus! {

/// A request: the identity of the proxy system that serves it, and the
/// accounts it names.
#[derive(Clone, Debug, PartialEq, Eq)]
pub struct Context<T> {
    pub program_id: Address,
    pub accounts: T,
}

/// The accounts of a request to create a registry.
#[derive(Clone, Debug, PartialEq, Eq)]
pub struct InitializeProxyAccount {
    /// The registry to set up.
    pub proxy_account: Account<ProxyAccount>,
    /// Who asks, and so who will own the registry.
    pub deployer: Address,
}

/// The accounts of a request to create a managed account.
#[derive(Clone, Debug, PartialEq, Eq)]
pub struct CreatePDAAccount {
    /// The registry that the new account will belong to.
    pub proxy_account: Account<ProxyAccount>,
    /// The managed account to set up.
    pub pda_account: Account<PDAAccount>,
}

/// The accounts of a request to move value out of a managed account.
#[derive(Clone, Debug, PartialEq, Eq)]
pub struct ControlAAAccount {
    /// The registry in whose name the request is made.
    pub proxy_account: Account<ProxyAccount>,
    /// The managed account that value leaves.
    pub pda_account: Account<PDAAccount>,
    /// Where native asset goes.
    pub to_account: Address,
    /// The token-holding account that tokens leave.
    pub from_token_account: Account<TokenAccount>,
    /// The token-holding account that tokens go to.
    pub to_token_account: Account<TokenAccount>,
    /// Who asks.
    pub deployer: Address,
}

/// The accounts of a request addressed to another application.
#[derive(Clone, Debug, PartialEq, Eq)]
pub struct InteractWithApplication {
    pub pda_account: Account<PDAAccount>,
}

/// The accounts of a request to inspect a managed account: its address and
/// the bytes stored there.
#[derive(Clone, Debug, PartialEq, Eq)]
pub struct InspectPDAAccount {
    pub pda_account: Account<Vec<u8>>,
}

} // verus!
