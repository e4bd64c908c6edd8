use solana_proxy::address::Address;
use solana_proxy::authority::CapabilityProof;
use solana_proxy::context::{
    Context, ControlAAAccount, CreatePDAAccount, InitializeProxyAccount, InteractWithApplication,
};
use solana_proxy::control::{authorize, dispatch};
use solana_proxy::derivation::find_derived_address;
use solana_proxy::error::ProxyError;
use solana_proxy::program::{
    control_aa_account, create_pda_aa_account, initialize_proxy_account, interact_with_application,
};
use solana_proxy::state::{Account, PDAAccount, ProxyAccount, TokenAccount};
use solana_proxy::transfer::{AccountMeta, Instruction, Transfer};

use anchor_lang::prelude::Pubkey;
use anchor_lang::solana_program::system_instruction;

fn program() -> Address {
    Address::new([7u8; 32])
}

fn registry_key() -> Address {
    Address::new([9u8; 32])
}

fn owner_a() -> Address {
    Address::new([1u8; 32])
}

fn address_b() -> Address {
    Address::new([2u8; 32])
}

fn stranger_c() -> Address {
    Address::new([3u8; 32])
}

fn token_source() -> Address {
    Address::new([4u8; 32])
}

fn token_destination() -> Address {
    Address::new([5u8; 32])
}

/// A registry owned by A with one managed account, and a request by
/// `requester` against it.
fn request(requester: Address) -> Context<ControlAAAccount> {
    let mut init = Context {
        program_id: program(),
        accounts: InitializeProxyAccount {
            proxy_account: Account { key: registry_key(), data: ProxyAccount::new(program()) },
            deployer: owner_a(),
        },
    };
    initialize_proxy_account(&mut init).unwrap();
    let (_, bump) = find_derived_address(&program(), &registry_key(), b"aa_account").unwrap();
    let mut create = Context {
        program_id: program(),
        accounts: CreatePDAAccount {
            proxy_account: init.accounts.proxy_account,
            pda_account: Account {
                key: Address::new([0u8; 32]),
                data: PDAAccount { bump: 0, owner: Address::new([0u8; 32]) },
            },
        },
    };
    create_pda_aa_account(&mut create, bump).unwrap();
    Context {
        program_id: program(),
        accounts: ControlAAAccount {
            proxy_account: create.accounts.proxy_account,
            pda_account: create.accounts.pda_account,
            to_account: address_b(),
            from_token_account: Account { key: token_source(), data: TokenAccount { owner: program() } },
            to_token_account: Account { key: token_destination(), data: TokenAccount { owner: address_b() } },
            deployer: requester,
        },
    }
}

fn proof_of(ctx: &Context<ControlAAAccount>) -> CapabilityProof {
    CapabilityProof {
        label: b"aa_account".to_vec(),
        registry: registry_key(),
        bump: ctx.accounts.pda_account.data.bump,
    }
}

#[test]
fn owner_moves_native_asset_out_of_slot1() {
    let ctx = request(owner_a());
    let slot1 = ctx.accounts.pda_account.key;
    assert_eq!(ctx.accounts.proxy_account.data.aa_accounts, vec![slot1]);
    let transfer = control_aa_account(&ctx, 1000, 1).unwrap();
    let expected = Instruction {
        program_id: Address::new([0u8; 32]),
        accounts: vec![
            AccountMeta { pubkey: slot1, is_signer: true, is_writable: true },
            AccountMeta { pubkey: address_b(), is_signer: false, is_writable: true },
        ],
        data: vec![2, 0, 0, 0, 0xe8, 0x03, 0, 0, 0, 0, 0, 0],
    };
    assert_eq!(transfer, Transfer::Native { instruction: expected, signer: proof_of(&ctx) });
}

#[test]
fn native_instruction_is_the_system_programs_own() {
    let ctx = request(owner_a());
    for amount in [0u64, 1, 1000, 0x0102_0304_0506_0708, u64::MAX] {
        let theirs = system_instruction::transfer(
            &Pubkey::new_from_array(ctx.accounts.pda_account.key.to_bytes()),
            &Pubkey::new_from_array([2u8; 32]),
            amount,
        );
        match control_aa_account(&ctx, amount, 1) {
            Ok(Transfer::Native { instruction, .. }) => {
                assert_eq!(instruction.program_id.to_bytes(), theirs.program_id.to_bytes());
                assert_eq!(instruction.data, theirs.data);
                assert_eq!(instruction.accounts.len(), theirs.accounts.len());
                for (ours, other) in instruction.accounts.iter().zip(theirs.accounts.iter()) {
                    assert_eq!(ours.pubkey.to_bytes(), other.pubkey.to_bytes());
                    assert_eq!(ours.is_signer, other.is_signer);
                    assert_eq!(ours.is_writable, other.is_writable);
                }
                let mut data = vec![2u8, 0, 0, 0];
                data.extend_from_slice(&amount.to_le_bytes());
                assert_eq!(instruction.data, data);
            }
            other => panic!("no native transfer: {:?}", other),
        }
    }
}

#[test]
fn stranger_is_refused_as_not_owner() {
    let ctx = request(stranger_c());
    assert_eq!(control_aa_account(&ctx, 1000, 1), Err(ProxyError::NotOwner));
    assert_eq!(authorize(&ctx, 1), Err(ProxyError::NotOwner));
}

#[test]
fn stranger_is_refused_whatever_the_action() {
    let ctx = request(stranger_c());
    for action in 0..=255u8 {
        assert_eq!(control_aa_account(&ctx, 5, action), Err(ProxyError::NotOwner));
    }
}

#[test]
fn account_under_another_controller_is_refused() {
    let mut ctx = request(owner_a());
    ctx.accounts.pda_account.data.owner = owner_a();
    for action in 0..=255u8 {
        assert_eq!(control_aa_account(&ctx, 5, action), Err(ProxyError::NotControlled));
    }
}

#[test]
fn stranger_against_foreign_account_is_not_owner() {
    let mut ctx = request(stranger_c());
    ctx.accounts.pda_account.data.owner = stranger_c();
    ctx.accounts.from_token_account.data.owner = stranger_c();
    assert_eq!(control_aa_account(&ctx, 5, 2), Err(ProxyError::NotOwner));
    assert_eq!(control_aa_account(&ctx, 5, 0), Err(ProxyError::NotOwner));
}

#[test]
fn unknown_action_codes_are_invalid() {
    let ctx = request(owner_a());
    for action in 0..=255u8 {
        if action != 1 && action != 2 {
            assert_eq!(authorize(&ctx, action), Ok(()));
            assert_eq!(dispatch(&ctx, 1000, action), Err(ProxyError::InvalidActionCode));
            assert_eq!(control_aa_account(&ctx, 1000, action), Err(ProxyError::InvalidActionCode));
        }
    }
}

#[test]
fn owner_moves_tokens() {
    let ctx = request(owner_a());
    assert_eq!(authorize(&ctx, 2), Ok(()));
    assert_eq!(
        control_aa_account(&ctx, 77, 2),
        Ok(Transfer::Token {
            from: token_source(),
            to: token_destination(),
            authority: ctx.accounts.pda_account.key,
            amount: 77,
            signer: proof_of(&ctx),
        })
    );
}

#[test]
fn token_source_under_another_authority_is_refused() {
    let mut ctx = request(owner_a());
    ctx.accounts.from_token_account.data.owner = owner_a();
    assert_eq!(authorize(&ctx, 2), Err(ProxyError::NotControlled));
    assert_eq!(control_aa_account(&ctx, 77, 2), Err(ProxyError::NotControlled));
}

#[test]
fn token_source_is_not_examined_for_other_actions() {
    let mut ctx = request(owner_a());
    ctx.accounts.from_token_account.data.owner = owner_a();
    assert_eq!(authorize(&ctx, 1), Ok(()));
    assert!(control_aa_account(&ctx, 77, 1).is_ok());
    assert_eq!(control_aa_account(&ctx, 77, 3), Err(ProxyError::InvalidActionCode));
}

#[test]
fn destinations_are_not_examined() {
    let mut ctx = request(owner_a());
    ctx.accounts.to_account = stranger_c();
    ctx.accounts.to_token_account =
        Account { key: stranger_c(), data: TokenAccount { owner: stranger_c() } };
    match control_aa_account(&ctx, 9, 1) {
        Ok(Transfer::Native { instruction, .. }) => {
            assert_eq!(instruction.accounts[1].pubkey, stranger_c())
        }
        other => panic!("no native transfer: {:?}", other),
    }
    match control_aa_account(&ctx, 9, 2) {
        Ok(Transfer::Token { to, .. }) => assert_eq!(to, stranger_c()),
        other => panic!("no token transfer: {:?}", other),
    }
}

#[test]
fn dispatch_agrees_with_the_whole_request_once_authorized() {
    let ctx = request(owner_a());
    assert_eq!(dispatch(&ctx, 12, 1), control_aa_account(&ctx, 12, 1));
    assert_eq!(dispatch(&ctx, 12, 2), control_aa_account(&ctx, 12, 2));
    assert_eq!(Transfer::native(&address_b(), &stranger_c(), 3, proof_of(&ctx)),
        Transfer::Native {
            instruction: Instruction {
                program_id: Address::new([0u8; 32]),
                accounts: vec![
                    AccountMeta { pubkey: address_b(), is_signer: true, is_writable: true },
                    AccountMeta { pubkey: stranger_c(), is_signer: false, is_writable: true },
                ],
                data: vec![2, 0, 0, 0, 3, 0, 0, 0, 0, 0, 0, 0],
            },
            signer: proof_of(&ctx),
        });
    assert_eq!(Transfer::token(&address_b(), &stranger_c(), &owner_a(), 3, proof_of(&ctx)),
        Transfer::Token {
            from: address_b(),
            to: stranger_c(),
            authority: owner_a(),
            amount: 3,
            signer: proof_of(&ctx),
        });
}

#[test]
fn requests_to_other_applications_do_nothing() {
    let ctx = Context {
        program_id: program(),
        accounts: InteractWithApplication {
            pda_account: Account { key: address_b(), data: PDAAccount { bump: 1, owner: program() } },
        },
    };
    let before = ctx.clone();
    assert_eq!(interact_with_application(&ctx, stranger_c()), Ok(()));
    assert_eq!(ctx, before);
}
