//! The two miners: one per derivation scheme.  Each one turns the run's
//! hex strings into a pattern, binds the salt space to its deployer, and
//! drives the search engine.

use vstd::prelude::*;

verus! {

use crate::ADDRESS_LEN;
use crate::types::{Address, Hash256, MiningResult};
use crate::hex::{all_hex_digits, hex_to_address_spec};
use crate::pattern::{
    MAX_PREFIX_LEN,
    Pattern,
    address_matches,
    flags_mask_spec,
    prefix_mask_spec,
};
use crate::derive::{single_step_address, two_step_address};
use crate::engine::{Strategy, search};
use crate::salt::{SINGLE_STEP_SALT_LEN, TWO_STEP_SALT_LEN};

/// The customary single-step deployment factory, used when a run names no
/// factory of its own.
pub open spec fn create2_default_factory_spec() -> Seq<u8> {
    seq![
        0x4eu8, 0x59u8, 0xb4u8, 0x48u8, 0x47u8, 0xb3u8, 0x79u8, 0x57u8, 0x85u8, 0x88u8, 0x92u8,
        0x0cu8, 0xa7u8, 0x8fu8, 0xbfu8, 0x26u8, 0xc0u8, 0xb4u8, 0x95u8, 0x6cu8,
    ]
}

/// Builds the customary single-step deployment factory address.
pub fn create2_default_factory() -> (r: Address)
    ensures
        r.wf(),
        r@ == create2_default_factory_spec(),
{
    let bytes: Vec<u8> = vec![
        0x4eu8, 0x59, 0xb4, 0x48, 0x47, 0xb3, 0x79, 0x57, 0x85, 0x88, 0x92, 0x0c, 0xa7, 0x8f,
        0xbf, 0x26, 0xc0, 0xb4, 0x95, 0x6c,
    ];
    proof {
        assert(bytes@ =~= create2_default_factory_spec());
    }
    Address::from_bytes(bytes)
}

/// The customary two-step deployment factory, used when a run names no
/// factory of its own.
pub open spec fn create3_default_factory_spec() -> Seq<u8> {
    seq![
        0x8cu8, 0xadu8, 0x6au8, 0x96u8, 0xb0u8, 0xa2u8, 0x87u8, 0xe2u8, 0x9bu8, 0xa7u8, 0x19u8,
        0x25u8, 0x7du8, 0x0eu8, 0xf4u8, 0x31u8, 0xeau8, 0x6du8, 0x88u8, 0x8bu8,
    ]
}

/// Builds the customary two-step deployment factory address.
pub fn create3_default_factory() -> (r: Address)
    ensures
        r.wf(),
        r@ == create3_default_factory_spec(),
{
    let bytes: Vec<u8> = vec![
        0x8cu8, 0xad, 0x6a, 0x96, 0xb0, 0xa2, 0x87, 0xe2, 0x9b, 0xa7, 0x19, 0x25, 0x7d, 0x0e,
        0xf4, 0x31, 0xea, 0x6d, 0x88, 0x8b,
    ];
    proof {
        assert(bytes@ =~= create3_default_factory_spec());
    }
    Address::from_bytes(bytes)
}

/// Miner for the single-step scheme: the candidate address is derived from
/// the factory, a 32-byte salt and the init-code hash.  The salt is the
/// deployer address, six entropy bytes and a six-byte counter.
pub struct Create2Miner {
    /// Address of the account that will call the factory.
    pub deployer: Address,
    /// Address of the factory contract performing the deployment.
    pub factory: Address,
    /// Digest of the contract's initialization code.
    pub init_code_hash: Hash256,
}

impl Create2Miner {
    pub open spec fn wf(&self) -> bool {
        self.deployer.wf() && self.factory.wf() && self.init_code_hash.wf()
    }

    /// Creates a single-step miner from its per-run configuration.
    pub fn new(deployer: Address, factory: Address, init_code_hash: Hash256) -> (r: Self)
        requires
            deployer.wf(),
            factory.wf(),
            init_code_hash.wf(),
        ensures
            r.wf(),
            r.deployer@ == deployer@,
            r.factory@ == factory@,
            r.init_code_hash@ == init_code_hash@,
    {
        Create2Miner { deployer, factory, init_code_hash }
    }

    /// Searches for a salt whose derived address carries the requested
    /// flags in its low bits and the requested prefix in its high bits.
    /// Any result is bound to the deployer, re-derivable from its own salt,
    /// and a true match; an unsatisfiable pattern exhausts the batch budget
    /// instead, which no realistic run lives to see.
    pub fn mine(&self, flags: &String, prefix: &String) -> (r: Option<MiningResult>)
        requires
            self.wf(),
            flags@.len() <= 40,
            all_hex_digits(flags@),
            prefix@.len() <= MAX_PREFIX_LEN,
            all_hex_digits(prefix@),
        ensures
            r matches Some(res) ==> {
                &&& res.address.wf()
                &&& res.salt@.len() == SINGLE_STEP_SALT_LEN
                &&& res.salt@.subrange(0, ADDRESS_LEN as int) == self.deployer@
                &&& res.address@ == single_step_address(
                    self.factory@,
                    res.salt@,
                    self.init_code_hash@,
                )
                &&& address_matches(
                    res.address@,
                    hex_to_address_spec(flags@, true),
                    flags_mask_spec(),
                    hex_to_address_spec(prefix@, false),
                    prefix_mask_spec(prefix@.len() as u64),
                )
            },
    {
        let pattern = Pattern::from_strings(flags, prefix);
        let strategy = Strategy::SingleStep {
            factory: self.factory.clone(),
            init_code_hash: self.init_code_hash.clone(),
        };
        search(&strategy, &self.deployer, &pattern, u64::MAX)
    }
}

/// Miner for the two-step scheme: a proxy address is derived from the
/// factory and the hashed 52-byte salt, and the final address follows from
/// the proxy at nonce one.  The salt is the deployer address, 26 entropy
/// bytes and a six-byte counter; a result reports the 32 bytes after the
/// deployer segment.
pub struct Create3Miner {
    /// Address of the account that will call the factory.
    pub deployer: Address,
    /// Address of the factory contract performing the deployment.
    pub factory: Address,
}

impl Create3Miner {
    pub open spec fn wf(&self) -> bool {
        self.deployer.wf() && self.factory.wf()
    }

    /// Creates a two-step miner from its per-run configuration.
    pub fn new(deployer: Address, factory: Address) -> (r: Self)
        requires
            deployer.wf(),
            factory.wf(),
        ensures
            r.wf(),
            r.deployer@ == deployer@,
            r.factory@ == factory@,
    {
        Create3Miner { deployer, factory }
    }

    /// Computes the contract address the two-step scheme yields for the
    /// given 52-byte salt.
    pub fn compute_create3_address(&self, salt: &Vec<u8>) -> (r: Address)
        requires
            self.wf(),
            salt@.len() == TWO_STEP_SALT_LEN,
        ensures
            r.wf(),
            r@ == two_step_address(self.factory@, salt@),
    {
        crate::derive::derive_two_step(&self.factory, salt)
    }

    /// Searches for a salt whose derived address carries the requested
    /// flags in its low bits and the requested prefix in its high bits.
    /// Any result, prefixed by the deployer, re-derives to its own address
    /// and is a true match; an unsatisfiable pattern exhausts the batch
    /// budget instead, which no realistic run lives to see.
    pub fn mine(&self, flags: &String, prefix: &String) -> (r: Option<MiningResult>)
        requires
            self.wf(),
            flags@.len() <= 40,
            all_hex_digits(flags@),
            prefix@.len() <= MAX_PREFIX_LEN,
            all_hex_digits(prefix@),
        ensures
            r matches Some(res) ==> {
                &&& res.address.wf()
                &&& res.salt@.len() == SINGLE_STEP_SALT_LEN
                &&& res.address@ == two_step_address(self.factory@, self.deployer@ + res.salt@)
                &&& address_matches(
                    res.address@,
                    hex_to_address_spec(flags@, true),
                    flags_mask_spec(),
                    hex_to_address_spec(prefix@, false),
                    prefix_mask_spec(prefix@.len() as u64),
                )
            },
    {
        let pattern = Pattern::from_strings(flags, prefix);
        let strategy = Strategy::TwoStep { factory: self.factory.clone() };
        search(&strategy, &self.deployer, &pattern, u64::MAX)
    }
}

} // verus!
