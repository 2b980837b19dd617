//! The salt space: a salt buffer is a fixed deployer prefix, an entropy
//! segment re-randomized between batches, and a big-endian counter segment
//! in the trailing six bytes, enumerated within one batch.

use vstd::prelude::*;

verus! {

use crate::ADDRESS_LEN;
use crate::types::{Address, copy_bytes};

/// Number of bytes of the counter segment.
pub const COUNTER_LEN: usize = 6;

/// First byte of the entropy segment: it follows the deployer segment.
pub const ENTROPY_START: usize = 20;

/// Exclusive upper bound of the counter segment's values: six bytes of
/// ones.
pub const MAX_NONCE: u64 = 0xffff_ffff_ffff;

/// Salt length of the single-step scheme.
pub const SINGLE_STEP_SALT_LEN: usize = 32;

/// Salt length of the two-step scheme.
pub const TWO_STEP_SALT_LEN: usize = 52;

/// The big-endian encoding of the low six bytes of a counter value.
pub open spec fn counter_bytes(n: u64) -> Seq<u8> {
    Seq::new(COUNTER_LEN as nat, |i: int| (((n >> ((8 * (5 - i)) as u64)) & 0xff) as u8))
}

/// The salt with its trailing six bytes replaced by the counter encoding.
pub open spec fn with_counter_spec(base: Seq<u8>, n: u64) -> Seq<u8>
    recommends
        base.len() >= COUNTER_LEN,
{
    base.subrange(0, base.len() - COUNTER_LEN) + counter_bytes(n)
}

/// A zero-filled salt buffer with the deployer address in its first 20
/// bytes; built once per run.
pub fn base_salt(deployer: &Address, salt_len: usize) -> (r: Vec<u8>)
    requires
        deployer.wf(),
        salt_len >= ADDRESS_LEN,
    ensures
        r@.len() == salt_len,
        r@.subrange(0, ADDRESS_LEN as int) == deployer@,
        forall|i: int| ADDRESS_LEN <= i < salt_len ==> r@[i] == 0u8,
{
    let mut out = copy_bytes(&deployer.bytes);
    let mut i: usize = ADDRESS_LEN;
    while i < salt_len
        invariant
            deployer.wf(),
            ADDRESS_LEN <= i <= salt_len,
            out@.len() == i,
            out@.subrange(0, ADDRESS_LEN as int) == deployer@,
            forall|k: int| ADDRESS_LEN <= k < i ==> out@[k] == 0u8,
        decreases salt_len - i,
    {
        out.push(0);
        proof {
            assert(out@.subrange(0, ADDRESS_LEN as int) =~= deployer@);
        }
        i += 1;
    }
    out
}

/// Overwrites the entropy segment with the supplied bytes; the deployer
/// prefix and the counter segment keep their values.  The entropy source
/// is injected, so a caller can drive it deterministically.
pub fn refresh_entropy(salt: &mut Vec<u8>, entropy: &Vec<u8>)
    requires
        old(salt)@.len() >= ENTROPY_START + COUNTER_LEN,
        entropy@.len() == old(salt)@.len() - ENTROPY_START - COUNTER_LEN,
    ensures
        final(salt)@.len() == old(salt)@.len(),
        final(salt)@.subrange(0, ENTROPY_START as int) == old(salt)@.subrange(
            0,
            ENTROPY_START as int,
        ),
        final(salt)@.subrange(ENTROPY_START as int, old(salt)@.len() - COUNTER_LEN) == entropy@,
        final(salt)@.subrange(old(salt)@.len() - COUNTER_LEN, old(salt)@.len() as int) == old(
            salt,
        )@.subrange(old(salt)@.len() - COUNTER_LEN, old(salt)@.len() as int),
{
    let mut i: usize = 0;
    while i < entropy.len()
        invariant
            salt@.len() == old(salt)@.len(),
            old(salt)@.len() >= ENTROPY_START + COUNTER_LEN,
            entropy@.len() == old(salt)@.len() - ENTROPY_START - COUNTER_LEN,
            i <= entropy@.len(),
            forall|k: int| 0 <= k < ENTROPY_START ==> salt@[k] == old(salt)@[k],
            forall|k: int| 0 <= k < i ==> #[trigger] salt@[ENTROPY_START + k] == entropy@[k],
            forall|k: int|
                ENTROPY_START + entropy@.len() <= k < salt@.len() ==> salt@[k] == old(salt)@[k],
        decreases entropy@.len() - i,
    {
        // the exec length pins the buffer length below usize::MAX, which
        // bounds the index arithmetic
        let _len = salt.len();
        salt.set(ENTROPY_START + i, entropy[i]);
        i += 1;
    }
    proof {
        assert(salt@.subrange(0, ENTROPY_START as int) =~= old(salt)@.subrange(
            0,
            ENTROPY_START as int,
        ));
        assert forall|k: int| 0 <= k < entropy@.len() implies salt@[ENTROPY_START + k]
            == entropy@[k] by {}
        assert(salt@.subrange(ENTROPY_START as int, old(salt)@.len() - COUNTER_LEN) =~= entropy@);
        assert(salt@.subrange(old(salt)@.len() - COUNTER_LEN, old(salt)@.len() as int)
            =~= old(salt)@.subrange(old(salt)@.len() - COUNTER_LEN, old(salt)@.len() as int));
    }
}

/// A fresh salt equal to `base` except that the trailing six bytes hold
/// the big-endian counter value; built once per candidate.
pub fn with_counter(base: &Vec<u8>, counter: u64) -> (r: Vec<u8>)
    requires
        base@.len() >= COUNTER_LEN,
        counter < MAX_NONCE,
    ensures
        r@ == with_counter_spec(base@, counter),
{
    let mut out = copy_bytes(base);
    let start = out.len() - COUNTER_LEN;
    let mut i: usize = 0;
    while i < COUNTER_LEN
        invariant
            out@.len() == base@.len(),
            base@.len() >= COUNTER_LEN,
            start == base@.len() - COUNTER_LEN,
            i <= COUNTER_LEN,
            forall|k: int| 0 <= k < start ==> out@[k] == base@[k],
            forall|k: int| 0 <= k < i ==> #[trigger] out@[start + k] == counter_bytes(counter)[k],
            forall|k: int| i <= k < COUNTER_LEN ==> #[trigger] out@[start + k] == base@[start + k],
        decreases COUNTER_LEN - i,
    {
        // the exec length pins the buffer length below usize::MAX, which
        // bounds the index arithmetic
        let _len = out.len();
        let shift: u64 = (8 * (5 - i)) as u64;
        out.set(start + i, #[verifier::truncate] (((counter >> shift) & 0xff) as u8));
        i += 1;
    }
    proof {
        assert forall|j: int| 0 <= j < out@.len() implies out@[j] == with_counter_spec(
            base@,
            counter,
        )[j] by {
            if j >= start {
                let k = j - start;
                assert(out@[start + k] == counter_bytes(counter)[k]);
            }
        }
        assert(out@ =~= with_counter_spec(base@, counter));
    }
    out
}

/// Distinct counters give distinct salts from one base: the counter
/// segment encodes the counter injectively below the bound.
pub proof fn lemma_with_counter_injective(base: Seq<u8>, n1: u64, n2: u64)
    requires
        base.len() >= COUNTER_LEN,
        n1 < MAX_NONCE,
        n2 < MAX_NONCE,
        n1 != n2,
    ensures
        with_counter_spec(base, n1) != with_counter_spec(base, n2),
{
    let c1 = counter_bytes(n1);
    let c2 = counter_bytes(n2);
    assert(!(((n1 >> 40) & 0xff) as u8 == ((n2 >> 40) & 0xff) as u8 && ((n1 >> 32) & 0xff) as u8
        == ((n2 >> 32) & 0xff) as u8 && ((n1 >> 24) & 0xff) as u8 == ((n2 >> 24) & 0xff) as u8 && ((
    n1 >> 16) & 0xff) as u8 == ((n2 >> 16) & 0xff) as u8 && ((n1 >> 8) & 0xff) as u8 == ((n2 >> 8)
        & 0xff) as u8 && ((n1 >> 0) & 0xff) as u8 == ((n2 >> 0) & 0xff) as u8)) by (bit_vector)
        requires
            n1 < 0xffffffffffff,
            n2 < 0xffffffffffff,
            n1 != n2,
    ;
    if with_counter_spec(base, n1) == with_counter_spec(base, n2) {
        assert forall|i: int| 0 <= i < COUNTER_LEN implies c1[i] == c2[i] by {
            assert(with_counter_spec(base, n1)[base.len() - COUNTER_LEN + i] == with_counter_spec(
                base,
                n2,
            )[base.len() - COUNTER_LEN + i]);
        }
        assert(c1[0] == c2[0] && c1[1] == c2[1] && c1[2] == c2[2] && c1[3] == c2[3] && c1[4]
            == c2[4] && c1[5] == c2[5]);
        assert(false);
    }
}

} // verus!
