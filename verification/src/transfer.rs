//! What the dispatcher hands to the ledger: a native transfer as a built
//! instruction, or the parts of a token transfer, each with the capability
//! proof that goes into the signing slot.

use vstd::prelude::*;
use anchor_lang::prelude::Pubkey;
use anchor_lang::solana_program::system_instruction;
use crate::address::Address;
use crate::authority::{CapabilityProof, CapabilityProofView};

verus! {

/// The action code of a native-asset transfer.
pub const ACTION_NATIVE: u8 = 1;

/// The action code of a fungible-token transfer.
pub const ACTION_TOKEN: u8 = 2;

/// An account that an instruction touches, and how.
#[derive(Clone, Copy, Debug, PartialEq, Eq)]
pub struct AccountMeta {
    pub pubkey: Address,
    pub is_signer: bool,
    pub is_writable: bool,
}

/// An instruction for a program of the ledger.
#[derive(Clone, Debug, PartialEq, Eq)]
pub struct Instruction {
    pub program_id: Address,
    pub accounts: Vec<AccountMeta>,
    pub data: Vec<u8>,
}

/// An instruction as plain mathematical values.
pub struct InstructionView {
    pub program_id: Seq<u8>,
    pub accounts: Seq<AccountMeta>,
    pub data: Seq<u8>,
}

impl View for Instruction {
    type V = InstructionView;

    open spec fn view(&self) -> InstructionView {
        InstructionView {
            program_id: self.program_id@,
            accounts: self.accounts@,
            data: self.data@,
        }
    }
}

/// The address of the ledger's system program: thirty-two zero bytes.
pub open spec fn system_program() -> Seq<u8> {
    Seq::new(32, |i: int| 0u8)
}

/// The instruction data that `system_instruction::transfer` encodes for a
/// transfer of `lamports`.
pub uninterp spec fn system_transfer_data(lamports: u64) -> Seq<u8>;

/// The system program's transfer of `lamports` from `from`, which signs, to
/// `to`.
pub open spec fn system_transfer_instruction(
    from: Address,
    to: Address,
    lamports: u64,
) -> InstructionView {
    InstructionView {
        program_id: system_program(),
        accounts: seq![
            AccountMeta { pubkey: from, is_signer: true, is_writable: true },
            AccountMeta { pubkey: to, is_signer: false, is_writable: true },
        ],
        data: system_transfer_data(lamports),
    }
}

/// Calls `system_instruction::transfer`. Trusted: the instruction is for the
/// system program, names `from` as a writable signer and `to` as writable,
/// in that order, and carries the data that `system_transfer_data` names.
#[verifier::external_body]
fn system_transfer(from: &Address, to: &Address, lamports: u64) -> (ix: Instruction)
    ensures
        ix.program_id@ == system_program(),
        ix.accounts@ == seq![
            AccountMeta { pubkey: *from, is_signer: true, is_writable: true },
            AccountMeta { pubkey: *to, is_signer: false, is_writable: true },
        ],
        ix.data@ == system_transfer_data(lamports),
{
    let source = Pubkey::new_from_array(from.bytes);
    let ix = system_instruction::transfer(&source, &Pubkey::new_from_array(to.bytes), lamports);
    let accounts = ix.accounts.iter().map(
        |m| AccountMeta {
            pubkey: Address { bytes: m.pubkey.to_bytes() },
            is_signer: m.is_signer,
            is_writable: m.is_writable,
        },
    ).collect();
    Instruction { program_id: Address { bytes: ix.program_id.to_bytes() }, accounts, data: ix.data }
}

/// The one transfer that a request, once authorised, asks the ledger for.
#[derive(Clone, Debug, PartialEq, Eq)]
pub enum Transfer {
    /// Move native asset: the instruction for the system program.
    Native { instruction: Instruction, signer: CapabilityProof },
    /// Move `amount` of the token held by `from` to `to`, with `authority`
    /// as the one who permits it.
    Token { from: Address, to: Address, authority: Address, amount: u64, signer: CapabilityProof },
}

/// A transfer as plain mathematical values.
pub enum TransferView {
    Native { instruction: InstructionView, signer: CapabilityProofView },
    Token {
        from: Address,
        to: Address,
        authority: Address,
        amount: u64,
        signer: CapabilityProofView,
    },
}

impl View for Transfer {
    type V = TransferView;

    open spec fn view(&self) -> TransferView {
        match *self {
            Transfer::Native { instruction, signer } => TransferView::Native {
                instruction: instruction@,
                signer: signer@,
            },
            Transfer::Token { from, to, authority, amount, signer } => TransferView::Token {
                from,
                to,
                authority,
                amount,
                signer: signer@,
            },
        }
    }
}

impl Transfer {
    /// The native transfer of `lamports` out of the managed account at
    /// `from` to `to`, authorised by `signer`.
    pub fn native(from: &Address, to: &Address, lamports: u64, signer: CapabilityProof) -> (t:
        Transfer)
        ensures
            t@ == (TransferView::Native {
                instruction: system_transfer_instruction(*from, *to, lamports),
                signer: signer@,
            }),
    {
        let instruction = system_transfer(from, to, lamports);
        Transfer::Native { instruction, signer }
    }

    /// The transfer of `amount` of the token held by the account at `from`
    /// to the account at `to`, permitted by `authority` and authorised by
    /// `signer`.
    pub fn token(
        from: &Address,
        to: &Address,
        authority: &Address,
        amount: u64,
        signer: CapabilityProof,
    ) -> (t: Transfer)
        ensures
            t@ == (TransferView::Token {
                from: *from,
                to: *to,
                authority: *authority,
                amount,
                signer: signer@,
            }),
    {
        Transfer::Token { from: *from, to: *to, authority: *authority, amount, signer }
    }
}

} // verus!
