//! Address derivation: the single-step scheme hashes factory, salt and
//! init-code hash; the two-step scheme derives a proxy address first and
//! then applies the from-nonce rule at nonce one.  The hash primitive is
//! an off-the-shelf black box.

use vstd::prelude::*;

verus! {

use crate::ADDRESS_LEN;
use crate::HASH_LEN;
use crate::types::{Address, Hash256, push_all};

/// The digest the hash primitive computes from the given bytes.  It is a
/// function of the bytes alone; its value is not stated here.
pub uninterp spec fn keccak256_of(bytes: Seq<u8>) -> Seq<u8>;

/// Relies on alloy_primitives::keccak256: a 32-byte digest computed from
/// the input bytes alone.
#[verifier::external_body]
fn keccak256(bytes: &Vec<u8>) -> (r: Vec<u8>)
    ensures
        r@ == keccak256_of(bytes@),
        r@.len() == HASH_LEN,
{
    alloy_primitives::keccak256(bytes.as_slice()).to_vec()
}

/// Single-step derivation: the low 20 bytes of
/// hash(0xff ++ factory ++ salt ++ init code hash).
pub open spec fn single_step_address(
    factory: Seq<u8>,
    salt: Seq<u8>,
    init_code_hash: Seq<u8>,
) -> Seq<u8> {
    low_bytes(keccak256_of(seq![0xffu8] + factory + salt + init_code_hash))
}

/// From-nonce derivation, specialized to nonce one: the low 20 bytes of
/// hash(0xd6 ++ 0x94 ++ account ++ 0x01).
pub open spec fn from_nonce_address(account: Seq<u8>) -> Seq<u8> {
    low_bytes(keccak256_of(seq![0xd6u8, 0x94u8] + account + seq![0x01u8]))
}

/// Two-step derivation: a proxy address by the single-step scheme on the
/// hashed 52-byte salt and the fixed proxy init-code digest, then the
/// from-nonce rule on the proxy.
pub open spec fn two_step_address(factory: Seq<u8>, salt: Seq<u8>) -> Seq<u8> {
    from_nonce_address(
        single_step_address(factory, keccak256_of(salt), proxy_init_code_hash_spec()),
    )
}

/// The last 20 bytes of a 32-byte digest.
pub open spec fn low_bytes(digest: Seq<u8>) -> Seq<u8>
    recommends
        digest.len() == HASH_LEN,
{
    digest.subrange(HASH_LEN - ADDRESS_LEN, HASH_LEN as int)
}

/// Digest of the proxy contract initialization code used by the first
/// stage of the two-step scheme.
pub open spec fn proxy_init_code_hash_spec() -> Seq<u8> {
    seq![
        0x21u8, 0xc3u8, 0x5du8, 0xbeu8, 0x1bu8, 0x34u8, 0x4au8, 0x24u8, 0x88u8, 0xcfu8, 0x33u8,
        0x21u8, 0xd6u8, 0xceu8, 0x54u8, 0x2fu8, 0x8eu8, 0x9fu8, 0x30u8, 0x55u8, 0x44u8, 0xffu8,
        0x09u8, 0xe4u8, 0x99u8, 0x3au8, 0x62u8, 0x31u8, 0x9au8, 0x49u8, 0x7cu8, 0x1fu8,
    ]
}

/// Builds the fixed proxy init-code digest.
pub fn proxy_init_code_hash() -> (r: Hash256)
    ensures
        r.wf(),
        r@ == proxy_init_code_hash_spec(),
{
    let bytes: Vec<u8> = vec![
        0x21u8, 0xc3, 0x5d, 0xbe, 0x1b, 0x34, 0x4a, 0x24, 0x88, 0xcf, 0x33, 0x21, 0xd6, 0xce,
        0x54, 0x2f, 0x8e, 0x9f, 0x30, 0x55, 0x44, 0xff, 0x09, 0xe4, 0x99, 0x3a, 0x62, 0x31, 0x9a,
        0x49, 0x7c, 0x1f,
    ];
    proof {
        assert(bytes@ =~= proxy_init_code_hash_spec());
    }
    Hash256::from_bytes(bytes)
}

/// Extracts the address from a digest: its last 20 bytes.
fn digest_to_address(digest: &Vec<u8>) -> (r: Address)
    requires
        digest@.len() == HASH_LEN,
    ensures
        r.wf(),
        r@ == low_bytes(digest@),
{
    let mut bytes: Vec<u8> = Vec::new();
    let mut i: usize = HASH_LEN - ADDRESS_LEN;
    while i < HASH_LEN
        invariant
            digest@.len() == HASH_LEN,
            HASH_LEN - ADDRESS_LEN <= i <= HASH_LEN,
            bytes@ == digest@.subrange((HASH_LEN - ADDRESS_LEN) as int, i as int),
        decreases HASH_LEN - i,
    {
        bytes.push(digest[i]);
        proof {
            assert(bytes@ =~= digest@.subrange((HASH_LEN - ADDRESS_LEN) as int, i + 1 as int));
        }
        i += 1;
    }
    Address::from_bytes(bytes)
}

/// Derives the single-step contract address for a 32-byte salt.
pub fn derive_single_step(factory: &Address, salt: &Vec<u8>, init_code_hash: &Hash256) -> (r:
    Address)
    requires
        factory.wf(),
        salt@.len() == HASH_LEN,
        init_code_hash.wf(),
    ensures
        r.wf(),
        r@ == single_step_address(factory@, salt@, init_code_hash@),
{
    let mut preimage: Vec<u8> = Vec::new();
    preimage.push(0xff);
    push_all(&mut preimage, &factory.bytes);
    push_all(&mut preimage, salt);
    push_all(&mut preimage, &init_code_hash.bytes);
    proof {
        assert(preimage@ =~= seq![0xffu8] + factory@ + salt@ + init_code_hash@);
    }
    let digest = keccak256(&preimage);
    digest_to_address(&digest)
}

/// Derives the address a contract at `account` creates with nonce one.
pub fn derive_from_nonce(account: &Address) -> (r: Address)
    requires
        account.wf(),
    ensures
        r.wf(),
        r@ == from_nonce_address(account@),
{
    let mut preimage: Vec<u8> = Vec::new();
    preimage.push(0xd6);
    preimage.push(0x94);
    push_all(&mut preimage, &account.bytes);
    preimage.push(0x01);
    proof {
        assert(preimage@ =~= seq![0xd6u8, 0x94u8] + account@ + seq![0x01u8]);
    }
    let digest = keccak256(&preimage);
    digest_to_address(&digest)
}

/// Derives the two-step contract address for a 52-byte salt.
pub fn derive_two_step(factory: &Address, salt: &Vec<u8>) -> (r: Address)
    requires
        factory.wf(),
        salt@.len() == 52,
    ensures
        r.wf(),
        r@ == two_step_address(factory@, salt@),
{
    let salt_hash = keccak256(salt);
    let proxy_hash = proxy_init_code_hash();
    let proxy = derive_single_step(factory, &salt_hash, &proxy_hash);
    derive_from_nonce(&proxy)
}

/// The single-step derivation is deterministic: the address depends on
/// factory, salt and init-code hash alone, so any two derivations from the
/// same inputs agree.
pub proof fn lemma_single_step_deterministic(
    factory: Seq<u8>,
    salt: Seq<u8>,
    init_code_hash: Seq<u8>,
    r1: Seq<u8>,
    r2: Seq<u8>,
)
    requires
        r1 == single_step_address(factory, salt, init_code_hash),
        r2 == single_step_address(factory, salt, init_code_hash),
    ensures
        r1 == r2,
{
}

} // verus!
