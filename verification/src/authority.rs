//! The capability proof: what the proxy presents in place of a signature.

use vstd::prelude::*;
use vstd::slice::slice_to_vec;
use crate::address::Address;
use crate::state::PDAAccount;

verus! {

/// The label under which every managed account is derived: the ASCII text
/// `aa_account`.
pub open spec fn aa_account_label() -> Seq<u8> {
    seq![97u8, 97u8, 95u8, 97u8, 99u8, 99u8, 111u8, 117u8, 110u8, 116u8]
}

/// The fixed derivation label, as bytes.
pub fn label() -> (l: Vec<u8>)
    ensures
        l@ == aa_account_label(),
{
    let l: Vec<u8> = vec![97u8, 97u8, 95u8, 97u8, 99u8, 99u8, 111u8, 117u8, 110u8, 116u8];
    assert(l@ =~= aa_account_label());
    l
}

/// The seeds that reproduce a managed account's address. Presented to the
/// ledger in the signing slot, they show that the proxy speaks for the
/// account; no private key is involved.
#[derive(Clone, Debug, PartialEq, Eq)]
pub struct CapabilityProof {
    pub label: Vec<u8>,
    pub registry: Address,
    pub bump: u8,
}

/// A capability proof as plain mathematical values.
pub struct CapabilityProofView {
    pub label: Seq<u8>,
    pub registry: Address,
    pub bump: u8,
}

impl View for CapabilityProof {
    type V = CapabilityProofView;

    open spec fn view(&self) -> CapabilityProofView {
        CapabilityProofView { label: self.label@, registry: self.registry, bump: self.bump }
    }
}

/// The proof for the record of a managed account of the registry at
/// `registry`.
pub open spec fn authority_of(registry: Address, record: PDAAccount) -> CapabilityProofView {
    CapabilityProofView { label: aa_account_label(), registry, bump: record.bump }
}

impl CapabilityProofView {
    /// The seeds in the order the derivation takes them.
    pub open spec fn seeds(self) -> Seq<Seq<u8>> {
        seq![self.label, self.registry@, seq![self.bump]]
    }
}

/// Builds the proof that authorises value to leave the managed account
/// `record` of the registry at `registry`.
pub fn prove_authority(registry: &Address, record: &PDAAccount) -> (p: CapabilityProof)
    ensures
        p@ == authority_of(*registry, *record),
{
    CapabilityProof { label: label(), registry: *registry, bump: record.bump }
}

impl CapabilityProof {
    /// The seeds of the proof: the label, the registry's address, and the
    /// salt as a single byte.
    pub fn seeds(&self) -> (s: Vec<Vec<u8>>)
        ensures
            s@.len() == 3,
            forall|i: int| 0 <= i < 3 ==> (#[trigger] s@[i])@ == self@.seeds()[i],
    {
        let label = slice_to_vec(self.label.as_slice());
        let registry = slice_to_vec(self.registry.bytes.as_slice());
        let bump: Vec<u8> = vec![self.bump];
        assert(bump@ =~= seq![self.bump]);
        let mut s: Vec<Vec<u8>> = Vec::new();
        s.push(label);
        s.push(registry);
        s.push(bump);
        s
    }
}

} // verus!
