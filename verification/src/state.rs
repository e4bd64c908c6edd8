//! The two persistent records: the registry and the managed account.

use vstd::prelude::*;
use crate::address::Address;
use crate::error::ProxyError;

verus! {

/// How many managed accounts a registry has room for.
pub const MAX_AA_ACCOUNTS: usize = 10;

/// The registry: who owns it, and the addresses of the managed accounts it
/// has created, oldest first. The list only grows, and nothing keeps an
/// address from standing in it twice.
#[derive(Clone, Debug, PartialEq, Eq)]
pub struct ProxyAccount {
    pub aa_accounts: Vec<Address>,
    pub owner: Address,
}

/// A managed account: the salt its address was derived with, and the
/// identity that controls it.
#[derive(Clone, Copy, Debug, PartialEq, Eq)]
pub struct PDAAccount {
    pub bump: u8,
    pub owner: Address,
}

/// What the proxy reads of a token-holding account: its recorded authority.
#[derive(Clone, Copy, Debug, PartialEq, Eq)]
pub struct TokenAccount {
    pub owner: Address,
}

/// A record together with the address it is stored at.
#[derive(Clone, Debug, PartialEq, Eq)]
pub struct Account<T> {
    pub key: Address,
    pub data: T,
}

impl ProxyAccount {
    /// The registry holds no more accounts than it has room for.
    pub open spec fn wf(&self) -> bool {
        self.aa_accounts@.len() <= MAX_AA_ACCOUNTS
    }

    /// No further account fits.
    pub open spec fn is_full(&self) -> bool {
        self.aa_accounts@.len() >= MAX_AA_ACCOUNTS
    }

    /// A registry owned by `owner` that has created no account yet.
    pub fn new(owner: Address) -> (r: ProxyAccount)
        ensures
            r.owner == owner,
            r.aa_accounts@ == Seq::<Address>::empty(),
            r.wf(),
    {
        ProxyAccount { aa_accounts: Vec::new(), owner }
    }

    /// Whether a further account fits.
    pub fn has_room(&self) -> (r: bool)
        ensures
            r == !self.is_full(),
    {
        self.aa_accounts.len() < MAX_AA_ACCOUNTS
    }

    /// Appends `address` unless the registry is full. A full registry is
    /// left as it was.
    pub fn append(&mut self, address: Address) -> (r: Result<(), ProxyError>)
        ensures
            final(self).owner == old(self).owner,
            old(self).is_full() ==> r == Err::<(), ProxyError>(ProxyError::CapacityExceeded)
                && *final(self) == *old(self),
            !old(self).is_full() ==> r == Ok::<(), ProxyError>(()) && final(self).aa_accounts@
                == old(self).aa_accounts@.push(address) && final(self).wf(),
    {
        if !self.has_room() {
            return Err(ProxyError::CapacityExceeded);
        }
        self.aa_accounts.push(address);
        Ok(())
    }
}

impl PDAAccount {
    /// Whether the account is controlled by the proxy system `program`.
    pub fn is_controlled_by(&self, program: &Address) -> (r: bool)
        ensures
            r == (self.owner == *program),
    {
        self.owner.same(program)
    }
}

} // verus!
