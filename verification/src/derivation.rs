//! Deriving the address of a managed account, and the proof that stands in
//! for its signature.

use vstd::prelude::*;
use anchor_lang::prelude::Pubkey;
use anchor_lang::solana_program::pubkey::PubkeyError;
use crate::address::Address;
use crate::error::ProxyError;

verus! {

/// The error of `Pubkey::create_program_address`, carried through unread.
#[verifier::external_type_specification]
#[verifier::external_body]
pub struct ExPubkeyError(PubkeyError);

/// The address that `Pubkey::create_program_address` derives for the program
/// `program` from the seeds `label`, `registry` and the single byte `salt`, in
/// that order; `None` where it refuses the seeds or the result lies on the
/// signature curve and so could have a private key.
pub uninterp spec fn derived_address(
    program: Seq<u8>,
    registry: Seq<u8>,
    label: Seq<u8>,
    salt: u8,
) -> Option<Seq<u8>>;

/// Whether the bytes are a point of the signature curve, as
/// `Pubkey::is_on_curve` tells: for such an address a private key could
/// exist.
pub uninterp spec fn on_curve(address: Seq<u8>) -> bool;

/// No seed may be longer than this many bytes.
pub const MAX_LABEL_LEN: usize = 32;

/// Calls `Pubkey::create_program_address` with the seeds `label`, `registry`
/// and `[salt]` under the program `program`. Trusted: the outcome is the one
/// that `derived_address` names, an address that comes back is no point of
/// the signature curve, and a label of more than `MAX_LABEL_LEN` bytes is
/// refused.
#[verifier::external_body]
fn create_program_address(program: &Address, registry: &Address, label: &[u8], salt: u8) -> (r:
    Result<Address, PubkeyError>)
    ensures
        match r {
            Ok(a) => derived_address(program@, registry@, label@, salt) == Some(a@) && !on_curve(
                a@,
            ),
            Err(_) => derived_address(program@, registry@, label@, salt) is None,
        },
        label@.len() > MAX_LABEL_LEN ==> r is Err,
{
    let seeds: [&[u8]; 3] = [label, &registry.bytes, &[salt]];
    Pubkey::create_program_address(&seeds, &Pubkey::new_from_array(program.bytes)).map(
        |key| Address { bytes: key.to_bytes() },
    )
}

/// Whether `salt` is the greatest salt under which an address can be derived.
pub open spec fn is_canonical_salt(
    program: Seq<u8>,
    registry: Seq<u8>,
    label: Seq<u8>,
    salt: u8,
) -> bool {
    &&& derived_address(program, registry, label, salt) is Some
    &&& forall|s: u8| salt < s ==> derived_address(program, registry, label, s) is None
}

/// Whether no salt at all gives an address.
pub open spec fn no_salt_derives(program: Seq<u8>, registry: Seq<u8>, label: Seq<u8>) -> bool {
    forall|s: u8| derived_address(program, registry, label, s) is None
}

/// Whether `r` is what deriving under these inputs comes to: the address
/// that the inputs determine, which no private key can exist for, or a
/// failure where they determine none.
pub open spec fn is_derivation(
    r: Result<Address, ProxyError>,
    program: Seq<u8>,
    registry: Seq<u8>,
    label: Seq<u8>,
    salt: u8,
) -> bool {
    match r {
        Ok(a) => derived_address(program, registry, label, salt) == Some(a@) && !on_curve(a@),
        Err(e) => e == ProxyError::DerivationFailure && derived_address(
            program,
            registry,
            label,
            salt,
        ) is None,
    }
}

/// Derives the address of the managed account that the registry at `registry`
/// has under `label` and `salt`, for the proxy system `program`. Fails rather
/// than hand out an address that a private key could exist for.
pub fn derive(program: &Address, registry: &Address, label: &[u8], salt: u8) -> (r: Result<
    Address,
    ProxyError,
>)
    ensures
        is_derivation(r, program@, registry@, label@, salt),
        label@.len() > MAX_LABEL_LEN ==> r is Err,
{
    match create_program_address(program, registry, label, salt) {
        Ok(a) => Ok(a),
        Err(_) => Err(ProxyError::DerivationFailure),
    }
}

/// Deriving is deterministic: the same program, registry, label and salt
/// always come to the same result, be it an address or the failure.
pub proof fn lemma_derive_is_deterministic(
    first: Result<Address, ProxyError>,
    second: Result<Address, ProxyError>,
    program: Seq<u8>,
    registry: Seq<u8>,
    label: Seq<u8>,
    salt: u8,
)
    requires
        is_derivation(first, program, registry, label, salt),
        is_derivation(second, program, registry, label, salt),
    ensures
        first == second,
{
    if let Ok(a) = first {
        let b = second->Ok_0;
        assert(a.bytes =~= b.bytes);
    }
}

/// What the search for a salt comes to: the greatest salt that derives an
/// address, with that address, or a failure where no salt derives one.
pub open spec fn is_canonical_derivation(
    r: Result<(Address, u8), ProxyError>,
    program: Seq<u8>,
    registry: Seq<u8>,
    label: Seq<u8>,
) -> bool {
    match r {
        Ok((a, salt)) => {
            &&& is_canonical_salt(program, registry, label, salt)
            &&& derived_address(program, registry, label, salt) == Some(a@)
            &&& !on_curve(a@)
        },
        Err(e) => e == ProxyError::DerivationFailure && no_salt_derives(program, registry, label),
    }
}

/// Searches the salts from 255 downwards and returns the first that derives
/// an address, with that address. Fails where no salt derives one.
pub fn find_derived_address(program: &Address, registry: &Address, label: &[u8]) -> (r: Result<
    (Address, u8),
    ProxyError,
>)
    ensures
        is_canonical_derivation(r, program@, registry@, label@),
        label@.len() > MAX_LABEL_LEN ==> r is Err,
{
    let mut salt: u8 = 255;
    loop
        invariant
            forall|s: u8| salt < s ==> derived_address(program@, registry@, label@, s) is None,
        decreases salt,
    {
        match derive(program, registry, label, salt) {
            Ok(a) => {
                return Ok((a, salt));
            },
            Err(_) => {},
        }
        if salt == 0 {
            return Err(ProxyError::DerivationFailure);
        }
        salt = salt - 1;
    }
}

} // verus!
