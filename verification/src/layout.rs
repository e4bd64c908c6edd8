//! The stored form of a managed account's record.
//!
//! A record is stored as an eight-byte tag that tells the kind of record,
//! then the salt as one byte, then the thirty-two bytes of the controller.
//! Bytes after these are not part of the record and are ignored.

use vstd::prelude::*;
use crate::address::Address;
use crate::error::ProxyError;
use crate::state::PDAAccount;

verus! {

/// The length of the tag that every stored record begins with.
pub const DISCRIMINATOR_LEN: usize = 8;

/// The length of a stored managed-account record: tag, salt, controller.
pub const PDA_ACCOUNT_LEN: usize = 41;

/// The tag of a managed-account record: the first eight bytes of the
/// SHA-256 digest of the text `account:PDAAccount`.
pub open spec fn pda_account_discriminator() -> Seq<u8> {
    seq![45u8, 144u8, 246u8, 42u8, 88u8, 234u8, 93u8, 2u8]
}

/// The tag of a managed-account record, as bytes.
pub fn discriminator() -> (d: [u8; 8])
    ensures
        d@ == pda_account_discriminator(),
{
    let d: [u8; 8] = [45u8, 144u8, 246u8, 42u8, 88u8, 234u8, 93u8, 2u8];
    assert(d@ =~= pda_account_discriminator());
    d
}

/// Whether `bytes` begin with a whole managed-account record.
pub open spec fn has_pda_account_layout(bytes: Seq<u8>) -> bool {
    &&& bytes.len() >= PDA_ACCOUNT_LEN
    &&& bytes.subrange(0, DISCRIMINATOR_LEN as int) == pda_account_discriminator()
}

impl PDAAccount {
    /// The stored form of the record.
    pub open spec fn encoding(&self) -> Seq<u8> {
        pda_account_discriminator() + seq![self.bump] + self.owner@
    }

    /// Whether `bytes` hold this record.
    pub open spec fn is_stored_in(&self, bytes: Seq<u8>) -> bool {
        &&& has_pda_account_layout(bytes)
        &&& self.bump == bytes[DISCRIMINATOR_LEN as int]
        &&& self.owner@ == bytes.subrange(DISCRIMINATOR_LEN + 1, PDA_ACCOUNT_LEN as int)
    }

    /// Writes the record in its stored form.
    pub fn try_serialize(&self) -> (out: Vec<u8>)
        ensures
            out@ == self.encoding(),
    {
        let tag = discriminator();
        let mut out: Vec<u8> = Vec::new();
        let mut i: usize = 0;
        while i < 8
            invariant
                i <= 8,
                tag@ == pda_account_discriminator(),
                out@ == pda_account_discriminator().subrange(0, i as int),
            decreases 8 - i,
        {
            out.push(tag[i]);
            i = i + 1;
        }
        out.push(self.bump);
        let mut k: usize = 0;
        while k < 32
            invariant
                k <= 32,
                out@ == pda_account_discriminator() + seq![self.bump] + self.owner@.subrange(
                    0,
                    k as int,
                ),
            decreases 32 - k,
        {
            out.push(self.owner.bytes[k]);
            k = k + 1;
        }
        assert(self.owner@.subrange(0, 32) =~= self.owner@);
        out
    }

    /// Reads a record back from stored bytes. Fails when the bytes are too
    /// few or begin with another tag; never makes up a record.
    pub fn try_deserialize(data: &[u8]) -> (r: Result<PDAAccount, ProxyError>)
        ensures
            match r {
                Ok(record) => record.is_stored_in(data@),
                Err(e) => e == ProxyError::DeserializationError && !has_pda_account_layout(data@),
            },
    {
        if data.len() < PDA_ACCOUNT_LEN {
            return Err(ProxyError::DeserializationError);
        }
        let tag = discriminator();
        let mut i: usize = 0;
        while i < 8
            invariant
                i <= 8,
                data@.len() >= PDA_ACCOUNT_LEN,
                tag@ == pda_account_discriminator(),
                forall|j: int| 0 <= j < i ==> data@[j] == pda_account_discriminator()[j],
            decreases 8 - i,
        {
            if data[i] != tag[i] {
                assert(data@.subrange(0, 8)[i as int] != pda_account_discriminator()[i as int]);
                return Err(ProxyError::DeserializationError);
            }
            i = i + 1;
        }
        assert(data@.subrange(0, 8) =~= pda_account_discriminator());
        let mut owner: [u8; 32] = [0u8; 32];
        let mut k: usize = 0;
        while k < 32
            invariant
                k <= 32,
                data@.len() >= PDA_ACCOUNT_LEN,
                forall|j: int| 0 <= j < k ==> owner@[j] == data@[9 + j],
            decreases 32 - k,
        {
            owner[k] = data[9 + k];
            k = k + 1;
        }
        assert(owner@ =~= data@.subrange(9, 41));
        Ok(PDAAccount { bump: data[8], owner: Address { bytes: owner } })
    }
}

/// What is written is read back: the stored form of a record holds that
/// record.
pub proof fn lemma_encoding_holds_record(record: PDAAccount)
    ensures
        record.is_stored_in(record.encoding()),
{
    let bytes = record.encoding();
    assert(bytes.subrange(0, 8) =~= pda_account_discriminator());
    assert(bytes.subrange(9, 41) =~= record.owner@);
}

/// Stored bytes hold at most one record, and bytes after the record do not
/// change it.
pub proof fn lemma_stored_record_is_unique(
    a: PDAAccount,
    b: PDAAccount,
    bytes: Seq<u8>,
    more: Seq<u8>,
)
    requires
        a.is_stored_in(bytes),
        b.is_stored_in(bytes + more),
    ensures
        a == b,
{
    assert((bytes + more).subrange(9, 41) =~= bytes.subrange(9, 41));
    assert(a.owner.bytes =~= b.owner.bytes);
}

} // verus!
