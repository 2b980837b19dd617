use piwi::derive::derive_single_step;
use piwi::engine::{search, Strategy};
use piwi::miner::{
    create2_default_factory, create3_default_factory, Create2Miner, Create3Miner,
};
use piwi::pattern::{compute_prefix_mask, flags_mask, Pattern};
use piwi::salt::{base_salt, refresh_entropy, with_counter, MAX_NONCE};
use piwi::types::{Address, Hash256};

fn deployer() -> Address {
    Address::from_bytes(vec![
        0x9f, 0xc3, 0xdc, 0x01, 0x1b, 0x46, 0x16, 0x64, 0xc8, 0x35, 0xf2, 0x52, 0x7f, 0xff, 0xb1,
        0x16, 0x9b, 0x3c, 0x21, 0x3e,
    ])
}

fn zero_address() -> Address {
    Address::from_bytes(vec![0u8; 20])
}

#[test]
fn base_salt_layout() {
    let base = base_salt(&deployer(), 32);
    assert_eq!(base.len(), 32);
    assert_eq!(&base[0..20], deployer().bytes.as_slice());
    assert_eq!(&base[20..32], &[0u8; 12]);
}

#[test]
fn refresh_entropy_touches_only_the_middle() {
    let mut salt = base_salt(&deployer(), 32);
    let entropy = vec![0xaa, 0xbb, 0xcc, 0xdd, 0xee, 0xff];
    refresh_entropy(&mut salt, &entropy);
    assert_eq!(&salt[0..20], deployer().bytes.as_slice());
    assert_eq!(&salt[20..26], entropy.as_slice());
    assert_eq!(&salt[26..32], &[0u8; 6]);
}

#[test]
fn with_counter_encodes_big_endian() {
    let base = base_salt(&deployer(), 32);
    let salt = with_counter(&base, 0x0102_0304_0506);
    assert_eq!(&salt[0..26], &base[0..26]);
    assert_eq!(&salt[26..32], &[0x01, 0x02, 0x03, 0x04, 0x05, 0x06]);
    assert_eq!(MAX_NONCE, 0xffff_ffff_ffff);
}

#[test]
fn with_counter_distinct_counters_distinct_salts() {
    let base = base_salt(&deployer(), 32);
    let first = with_counter(&base, 1);
    let second = with_counter(&base, 2);
    assert_ne!(first, second);
}

#[test]
fn trivial_pattern_returns_within_one_batch() {
    let pattern = Pattern {
        flags_target: zero_address(),
        flags_mask: zero_address(),
        prefix_target: zero_address(),
        prefix_mask: zero_address(),
    };
    let strategy = Strategy::SingleStep {
        factory: create2_default_factory(),
        init_code_hash: Hash256::from_bytes(vec![0x42u8; 32]),
    };
    let found = search(&strategy, &deployer(), &pattern, 1);
    let result = found.expect("a zero-mask pattern matches the very first candidate");
    assert_eq!(result.salt.len(), 32);
    assert_eq!(&result.salt[0..20], deployer().bytes.as_slice());
}

#[test]
fn zero_batch_budget_finds_nothing() {
    let pattern = Pattern {
        flags_target: zero_address(),
        flags_mask: zero_address(),
        prefix_target: zero_address(),
        prefix_mask: zero_address(),
    };
    let strategy = Strategy::TwoStep {
        factory: create3_default_factory(),
    };
    assert_eq!(search(&strategy, &deployer(), &pattern, 0), None);
}

#[test]
fn create2_mine_result_rederives_and_matches() {
    let init_code_hash = Hash256::from_bytes(vec![0x42u8; 32]);
    let miner = Create2Miner::new(deployer(), create2_default_factory(), init_code_hash);
    let result = miner
        .mine(&String::from("13"), &String::from(""))
        .expect("a 14-bit flags pattern is found within one batch");

    // Re-derive the address from the reported salt with the scheme's own
    // deriver and confirm the match.
    let rederived = derive_single_step(
        &create2_default_factory(),
        &result.salt,
        &Hash256::from_bytes(vec![0x42u8; 32]),
    );
    assert_eq!(rederived, result.address);

    let pattern = Pattern {
        flags_target: Address::from_bytes({
            let mut t = vec![0u8; 20];
            t[19] = 0x13;
            t
        }),
        flags_mask: flags_mask(),
        prefix_target: zero_address(),
        prefix_mask: compute_prefix_mask(0),
    };
    assert!(pattern.check_candidate(&result.address));
    assert_eq!(&result.salt[0..20], deployer().bytes.as_slice());
}

#[test]
fn create2_mine_honors_prefix() {
    let init_code_hash = Hash256::from_bytes(vec![0x11u8; 32]);
    let miner = Create2Miner::new(deployer(), create2_default_factory(), init_code_hash);
    let result = miner
        .mine(&String::from("0"), &String::from("a"))
        .expect("an 18-bit pattern is found within one batch");
    // One prefix digit: the address starts with the nibble `a`.
    assert_eq!(result.address.bytes[0] >> 4, 0xa);
    // Zero flags under the 14-bit flags mask.
    assert_eq!(result.address.bytes[18] & 0x3f, 0);
    assert_eq!(result.address.bytes[19], 0);
}

#[test]
fn create3_mine_result_rederives_and_matches() {
    let miner = Create3Miner::new(deployer(), create3_default_factory());
    let result = miner
        .mine(&String::from("2a"), &String::from(""))
        .expect("a 14-bit flags pattern is found within one batch");

    // The reported salt holds the 32 bytes after the deployer segment;
    // rebuild the full salt and re-derive.
    assert_eq!(result.salt.len(), 32);
    let mut full_salt = deployer().bytes.clone();
    full_salt.extend_from_slice(&result.salt);
    let rederived = miner.compute_create3_address(&full_salt);
    assert_eq!(rederived, result.address);

    let pattern = Pattern {
        flags_target: Address::from_bytes({
            let mut t = vec![0u8; 20];
            t[19] = 0x2a;
            t
        }),
        flags_mask: flags_mask(),
        prefix_target: zero_address(),
        prefix_mask: compute_prefix_mask(0),
    };
    assert!(pattern.check_candidate(&result.address));
}
