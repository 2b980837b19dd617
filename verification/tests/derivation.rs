use piwi::derive::derive_single_step;
use piwi::miner::{create3_default_factory, Create3Miner};
use piwi::types::{Address, Hash256};

fn deployer_bytes() -> Vec<u8> {
    vec![
        0x9f, 0xc3, 0xdc, 0x01, 0x1b, 0x46, 0x16, 0x64, 0xc8, 0x35, 0xf2, 0x52, 0x7f, 0xff, 0xb1,
        0x16, 0x9b, 0x3c, 0x21, 0x3e,
    ]
}

#[test]
fn test_compute_create3_address() {
    let deployer = Address::from_bytes(deployer_bytes());
    let factory = create3_default_factory();
    let miner = Create3Miner::new(deployer, factory);
    let mut salt = vec![2u8; 52];
    salt[0..20].copy_from_slice(&deployer_bytes());
    let computed = miner.compute_create3_address(&salt);
    let expected = Address::from_bytes(vec![
        0x12, 0x98, 0xbe, 0x70, 0xf7, 0x71, 0x75, 0x3b, 0x54, 0x90, 0xb4, 0x70, 0x85, 0x13, 0xd9,
        0xf0, 0xf5, 0x13, 0xdd, 0x36,
    ]);
    assert_eq!(computed, expected);
}

#[test]
fn single_step_is_deterministic() {
    let factory = Address::from_bytes(deployer_bytes());
    let salt = vec![7u8; 32];
    let init_code_hash = Hash256::from_bytes(vec![0x42u8; 32]);
    let first = derive_single_step(&factory, &salt, &init_code_hash);
    let second = derive_single_step(&factory, &salt, &init_code_hash);
    assert_eq!(first, second);
}

#[test]
fn single_step_depends_on_salt() {
    let factory = Address::from_bytes(deployer_bytes());
    let init_code_hash = Hash256::from_bytes(vec![0x42u8; 32]);
    let first = derive_single_step(&factory, &vec![7u8; 32], &init_code_hash);
    let second = derive_single_step(&factory, &vec![8u8; 32], &init_code_hash);
    assert_ne!(first, second);
}
