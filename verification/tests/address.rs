use anchor_lang::prelude::Pubkey;
use escrow::address::{
    arbiter_address, config_address, derive_address, escrow_address, fee_collector_address, is_address,
    reputation_address,
};
use escrow::constants::{ARBITER_SEED, CONFIG_SEED, ESCROW_SEED, FEE_COLLECTOR_SEED, REPUTATION_SEED};
use escrow::identity::Identity;
use std::str::FromStr;

fn program_key() -> Pubkey {
    Pubkey::from_str("9X6QbCnVwTg1EjQDNt9KrT7rvJqPRVAUWfYCkNRZW9VY").unwrap()
}

fn program_id() -> Identity {
    Identity::new(program_key().to_bytes())
}

fn expected(seeds: &[&[u8]]) -> Option<(Identity, u8)> {
    let (key, bump) = Pubkey::find_program_address(seeds, &program_key());
    Some((Identity::new(key.to_bytes()), bump))
}

#[test]
fn seeds_are_the_namespace_names() {
    assert_eq!(&ESCROW_SEED[..], b"escrow");
    assert_eq!(&REPUTATION_SEED[..], b"reputation");
    assert_eq!(&CONFIG_SEED[..], b"config");
    assert_eq!(&FEE_COLLECTOR_SEED[..], b"fee_collector");
    assert_eq!(&ARBITER_SEED[..], b"arbiter");
}

#[test]
fn singleton_addresses_are_derived_from_their_namespace() {
    let config = config_address(&program_id());
    let vault = fee_collector_address(&program_id());
    assert_eq!(config, expected(&[b"config"]));
    assert_eq!(vault, expected(&[b"fee_collector"]));
    assert_ne!(config.unwrap().0, vault.unwrap().0);
    assert_ne!(config.unwrap().0, program_id());
}

#[test]
fn derived_address_verifies_with_its_bump() {
    let (key, bump) = config_address(&program_id()).unwrap();
    let checked = Pubkey::create_program_address(&[b"config", &[bump]], &program_key()).unwrap();
    assert_eq!(key, Identity::new(checked.to_bytes()));
}

#[test]
fn owned_addresses_are_derived_from_namespace_and_owners() {
    let buyer = Identity::new([1; 32]);
    let seller = Identity::new([2; 32]);
    assert_eq!(escrow_address(&buyer, &seller, &program_id()), expected(&[b"escrow", &[1; 32], &[2; 32]]));
    assert_eq!(escrow_address(&seller, &buyer, &program_id()), expected(&[b"escrow", &[2; 32], &[1; 32]]));
    assert_ne!(escrow_address(&buyer, &seller, &program_id()), escrow_address(&seller, &buyer, &program_id()));
    assert_eq!(reputation_address(&buyer, &program_id()), expected(&[b"reputation", &[1; 32]]));
    assert_eq!(arbiter_address(&seller, &program_id()), expected(&[b"arbiter", &[2; 32]]));
}

#[test]
fn derive_address_takes_any_namespace_and_owners() {
    let owners = vec![Identity::new([3; 32]), Identity::new([4; 32]), Identity::new([5; 32])];
    assert_eq!(
        derive_address(b"any", &owners, &program_id()),
        expected(&[b"any", &[3; 32], &[4; 32], &[5; 32]])
    );
    assert_eq!(derive_address(b"", &Vec::new(), &program_id()), expected(&[b""]));
}

#[test]
fn derive_address_finds_none_for_seeds_that_are_too_long_or_too_many() {
    assert_eq!(derive_address(&[0u8; 33], &Vec::new(), &program_id()), None);
    let owners = vec![Identity::new([3; 32]); 16];
    assert_eq!(derive_address(b"x", &owners, &program_id()), None);
}

#[test]
fn is_address_compares_with_the_derived_key() {
    let found = config_address(&program_id());
    let key = found.unwrap().0;
    assert!(is_address(&found, &key));
    assert!(!is_address(&found, &program_id()));
    assert!(!is_address(&None, &key));
}

#[test]
fn identities_compare_by_their_bytes() {
    let mut bytes = [7u8; 32];
    let a = Identity::new(bytes);
    assert_eq!(a, Identity::new([7u8; 32]));
    bytes[31] = 8;
    assert_ne!(a, Identity::new(bytes));
    bytes[31] = 7;
    bytes[0] = 6;
    assert_ne!(a, Identity::new(bytes));
    assert_eq!(a.bytes, [7u8; 32]);
}
