//! A delegated-authority proxy: a registry whose owner commands managed
//! accounts that have no private key. Each managed account lives at an
//! address derived from the registry's address, a fixed label and a one-byte
//! salt; the salt stands in for a signature when value leaves the account.
//!
//! The library decides; it moves nothing itself. A request to move value
//! comes back as the one transfer to perform, or as the reason why there is
//! none, and its caller hands that transfer to the ledger.
//!
//! Assumptions about the ledger: it runs each request as one indivisible
//! unit, so that a failed request leaves no trace, and it rejects or
//! serialises requests that would change the same record at the same time.
//! The library holds no lock and no version of its own.

pub mod address;
pub mod authority;
pub mod context;
pub mod control;
pub mod derivation;
pub mod error;
pub mod layout;
pub mod program;
pub mod state;
pub mod transfer;
