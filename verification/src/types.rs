//! Value types of the miner: addresses, digests and the mining result.

use vstd::prelude::*;

verus! {

use crate::ADDRESS_LEN;
use crate::HASH_LEN;

/// A contract address: a fixed 20-byte value, immutable once computed.
#[derive(Debug, PartialEq, Eq)]
pub struct Address {
    pub bytes: Vec<u8>,
}

impl View for Address {
    type V = Seq<u8>;

    open spec fn view(&self) -> Seq<u8> {
        self.bytes@
    }
}

impl Address {
    /// A well-formed address holds exactly 20 bytes.
    pub open spec fn wf(&self) -> bool {
        self@.len() == ADDRESS_LEN
    }

    pub fn from_bytes(bytes: Vec<u8>) -> (r: Address)
        requires
            bytes@.len() == ADDRESS_LEN,
        ensures
            r.wf(),
            r@ == bytes@,
    {
        Address { bytes }
    }
}

impl Clone for Address {
    fn clone(&self) -> (r: Self)
        ensures
            r@ == self@,
    {
        Address { bytes: copy_bytes(&self.bytes) }
    }
}

/// A 32-byte digest, the output of the hash primitive.
#[derive(Debug, PartialEq, Eq)]
pub struct Hash256 {
    pub bytes: Vec<u8>,
}

impl View for Hash256 {
    type V = Seq<u8>;

    open spec fn view(&self) -> Seq<u8> {
        self.bytes@
    }
}

impl Hash256 {
    /// A well-formed digest holds exactly 32 bytes.
    pub open spec fn wf(&self) -> bool {
        self@.len() == HASH_LEN
    }

    pub fn from_bytes(bytes: Vec<u8>) -> (r: Hash256)
        requires
            bytes@.len() == HASH_LEN,
        ensures
            r.wf(),
            r@ == bytes@,
    {
        Hash256 { bytes }
    }
}

impl Clone for Hash256 {
    fn clone(&self) -> (r: Self)
        ensures
            r@ == self@,
    {
        Hash256 { bytes: copy_bytes(&self.bytes) }
    }
}

/// The outcome of a successful search: the first salt found whose derived
/// address satisfies the pattern, and that address.
#[derive(Debug, PartialEq, Eq)]
pub struct MiningResult {
    pub address: Address,
    pub salt: Vec<u8>,
}

/// Returns a fresh vector holding the same bytes.
pub fn copy_bytes(src: &Vec<u8>) -> (r: Vec<u8>)
    ensures
        r@ == src@,
{
    let mut out: Vec<u8> = Vec::new();
    let mut i: usize = 0;
    while i < src.len()
        invariant
            i <= src@.len(),
            out@ == src@.subrange(0, i as int),
        decreases src@.len() - i,
    {
        out.push(src[i]);
        proof {
            assert(out@ =~= src@.subrange(0, i + 1 as int));
        }
        i += 1;
    }
    proof {
        assert(out@ =~= src@);
    }
    out
}

/// Appends all bytes of `src` to `dst`.
pub fn push_all(dst: &mut Vec<u8>, src: &Vec<u8>)
    ensures
        final(dst)@ == old(dst)@ + src@,
{
    let mut i: usize = 0;
    while i < src.len()
        invariant
            i <= src@.len(),
            dst@ == old(dst)@ + src@.subrange(0, i as int),
        decreases src@.len() - i,
    {
        dst.push(src[i]);
        proof {
            assert(dst@ =~= old(dst)@ + src@.subrange(0, i + 1 as int));
        }
        i += 1;
    }
    proof {
        assert(dst@ =~= old(dst)@ + src@);
    }
}

} // verus!
