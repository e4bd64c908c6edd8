use solana_proxy::address::Address;
use solana_proxy::authority::{label, prove_authority};
use solana_proxy::derivation;
use solana_proxy::derivation::find_derived_address;
use solana_proxy::error::ProxyError;
use solana_proxy::state::PDAAccount;

use anchor_lang::prelude::Pubkey;

fn program() -> Address {
    Address::new([7u8; 32])
}

fn registry() -> Address {
    Address::new([9u8; 32])
}

fn ledger_derivation(program: [u8; 32], registry: [u8; 32], label: &[u8], salt: u8) -> Option<[u8; 32]> {
    Pubkey::create_program_address(&[label, &registry, &[salt]], &Pubkey::new_from_array(program))
        .ok()
        .map(|key| key.to_bytes())
}

#[test]
fn find_agrees_with_the_ledger_library() {
    let (key, bump) = Pubkey::find_program_address(
        &[b"aa_account".as_ref(), &[9u8; 32]],
        &Pubkey::new_from_array([7u8; 32]),
    );
    let found = find_derived_address(&program(), &registry(), b"aa_account");
    assert_eq!(found, Ok((Address::new(key.to_bytes()), bump)));
}

#[test]
fn found_salt_is_the_greatest_that_derives() {
    let (address, salt) = find_derived_address(&program(), &registry(), b"aa_account").unwrap();
    assert_eq!(derivation::derive(&program(), &registry(), b"aa_account", salt), Ok(address));
    let mut above = salt;
    while above < 255 {
        above += 1;
        assert_eq!(
            derivation::derive(&program(), &registry(), b"aa_account", above),
            Err(ProxyError::DerivationFailure)
        );
    }
}

#[test]
fn derive_agrees_with_the_ledger_library_for_every_salt() {
    let mut refused = 0;
    let mut derived = 0;
    for salt in 0..=255u8 {
        let ours = derivation::derive(&program(), &registry(), b"slot1", salt);
        match ledger_derivation([7u8; 32], [9u8; 32], b"slot1", salt) {
            Some(bytes) => {
                derived += 1;
                assert_eq!(ours, Ok(Address::new(bytes)));
                assert_ne!(bytes, [9u8; 32]);
                assert!(!Pubkey::new_from_array(bytes).is_on_curve());
            }
            None => {
                refused += 1;
                assert_eq!(ours, Err(ProxyError::DerivationFailure));
            }
        }
    }
    assert!(derived > 0);
    assert!(refused > 0);
}

#[test]
fn derive_is_repeatable() {
    let (_, bump) = find_derived_address(&program(), &registry(), b"aa_account").unwrap();
    let first = derivation::derive(&program(), &registry(), b"aa_account", bump);
    let second = derivation::derive(&program(), &registry(), b"aa_account", bump);
    assert!(first.is_ok());
    assert_eq!(first, second);
}

#[test]
fn changing_one_input_changes_the_address() {
    let label = b"aa_account";
    let mut salts = Vec::new();
    for salt in 0..=255u8 {
        if derivation::derive(&program(), &registry(), label, salt).is_ok()
            && derivation::derive(&program(), &registry(), b"slot1", salt).is_ok()
            && derivation::derive(&program(), &program(), label, salt).is_ok()
            && derivation::derive(&registry(), &registry(), label, salt).is_ok()
        {
            salts.push(salt);
        }
    }
    assert!(salts.len() >= 2);
    let salt = salts[0];
    let base = derivation::derive(&program(), &registry(), label, salt).unwrap();
    assert_ne!(base, derivation::derive(&program(), &registry(), label, salts[1]).unwrap());
    assert_ne!(base, derivation::derive(&program(), &registry(), b"slot1", salt).unwrap());
    assert_ne!(base, derivation::derive(&program(), &program(), label, salt).unwrap());
    assert_ne!(base, derivation::derive(&registry(), &registry(), label, salt).unwrap());
}

#[test]
fn overlong_label_is_a_derivation_failure() {
    let label = [1u8; 33];
    for salt in 0..=255u8 {
        assert_eq!(
            derivation::derive(&program(), &registry(), &label, salt),
            Err(ProxyError::DerivationFailure)
        );
    }
    assert_eq!(
        find_derived_address(&program(), &registry(), &label),
        Err(ProxyError::DerivationFailure)
    );
}

#[test]
fn longest_label_is_accepted() {
    let label = [1u8; 32];
    assert!(find_derived_address(&program(), &registry(), &label).is_ok());
}

#[test]
fn fixed_label_is_aa_account() {
    assert_eq!(label(), b"aa_account".to_vec());
}

#[test]
fn proof_seeds_reproduce_the_address() {
    let (address, bump) = find_derived_address(&program(), &registry(), &label()).unwrap();
    let record = PDAAccount { bump, owner: program() };
    let proof = prove_authority(&registry(), &record);
    assert_eq!(proof.label, b"aa_account".to_vec());
    assert_eq!(proof.registry, registry());
    assert_eq!(proof.bump, bump);
    let seeds = proof.seeds();
    assert_eq!(seeds, vec![b"aa_account".to_vec(), vec![9u8; 32], vec![bump]]);
    let slices: Vec<&[u8]> = seeds.iter().map(|s| s.as_slice()).collect();
    let key = Pubkey::create_program_address(&slices, &Pubkey::new_from_array([7u8; 32])).unwrap();
    assert_eq!(Address::new(key.to_bytes()), address);
}

#[test]
fn addresses_compare_by_their_bytes() {
    let mut bytes = [3u8; 32];
    let a = Address::new(bytes);
    assert!(a.same(&Address::new([3u8; 32])));
    assert_eq!(a, Address::new([3u8; 32]));
    assert_eq!(a.to_bytes(), [3u8; 32]);
    bytes[31] = 4;
    assert!(!a.same(&Address::new(bytes)));
    assert_ne!(a, Address::new(bytes));
    bytes[31] = 3;
    bytes[0] = 0;
    assert!(!a.same(&Address::new(bytes)));
}
