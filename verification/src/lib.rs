//! Vanity-address salt mining for deterministic contract deployment.
//!
//! The library searches for a salt value whose derived contract address
//! matches a caller-chosen bit pattern.  Two derivation schemes are
//! supported: a single-step scheme (the address is a hash of factory,
//! salt and init-code hash) and a two-step scheme (a proxy address is
//! derived first, then the final address follows from the proxy and a
//! fixed account nonce).

use vstd::prelude::*;

pub mod types;
pub mod hex;
pub mod pattern;
pub mod derive;
pub mod salt;
pub mod engine;
pub mod miner;

verus! {

/// Number of bytes in a contract address.
pub const ADDRESS_LEN: usize = 20;

/// Number of bytes in a digest of the hash primitive.
pub const HASH_LEN: usize = 32;

/// An address is a fixed 20-byte value.
pub open spec fn is_address(s: Seq<u8>) -> bool {
    s.len() == ADDRESS_LEN
}

} // verus!
