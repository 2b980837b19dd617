//! The search engine: per batch it draws fresh entropy for the salt's
//! middle segment, fans the counter range out over a parallel worker pool,
//! and stops as soon as one candidate address matches the pattern.

use vstd::prelude::*;
use rayon::iter::{IntoParallelIterator, ParallelIterator};

verus! {

use crate::ADDRESS_LEN;
use crate::types::{Address, Hash256, MiningResult};
use crate::pattern::Pattern;
use crate::derive::{derive_single_step, derive_two_step, single_step_address, two_step_address};
use crate::salt::{
    COUNTER_LEN,
    ENTROPY_START,
    MAX_NONCE,
    SINGLE_STEP_SALT_LEN,
    TWO_STEP_SALT_LEN,
    base_salt,
    refresh_entropy,
    with_counter,
    with_counter_spec,
};

/// How a candidate address is derived from a full salt: the scheme-specific
/// behaviour of the search, selected at run start.
pub enum Strategy {
    /// The address comes straight from (factory, salt, init code hash).
    SingleStep { factory: Address, init_code_hash: Hash256 },
    /// A proxy address is derived first; the final address follows from
    /// the proxy and a fixed account nonce.
    TwoStep { factory: Address },
}

impl Strategy {
    pub open spec fn wf(&self) -> bool {
        match self {
            Strategy::SingleStep { factory, init_code_hash } => factory.wf()
                && init_code_hash.wf(),
            Strategy::TwoStep { factory } => factory.wf(),
        }
    }

    /// Length of the salt buffer the scheme works on.
    pub open spec fn spec_salt_len(&self) -> int {
        match self {
            Strategy::SingleStep { .. } => SINGLE_STEP_SALT_LEN as int,
            Strategy::TwoStep { .. } => TWO_STEP_SALT_LEN as int,
        }
    }

    pub fn salt_len(&self) -> (r: usize)
        ensures
            r == self.spec_salt_len(),
    {
        match self {
            Strategy::SingleStep { .. } => SINGLE_STEP_SALT_LEN,
            Strategy::TwoStep { .. } => TWO_STEP_SALT_LEN,
        }
    }

    /// The address the scheme derives from a full salt buffer.
    pub open spec fn derived_address(&self, salt: Seq<u8>) -> Seq<u8> {
        match self {
            Strategy::SingleStep { factory, init_code_hash } => single_step_address(
                factory@,
                salt,
                init_code_hash@,
            ),
            Strategy::TwoStep { factory } => two_step_address(factory@, salt),
        }
    }

    /// The salt reported for a match: the whole buffer for the single-step
    /// scheme, the 32 bytes after the deployer segment for the two-step
    /// one.
    pub open spec fn reported_salt(&self, salt: Seq<u8>) -> Seq<u8> {
        match self {
            Strategy::SingleStep { .. } => salt,
            Strategy::TwoStep { .. } => salt.subrange(
                ENTROPY_START as int,
                TWO_STEP_SALT_LEN as int,
            ),
        }
    }
}

/// The outcome of evaluating one counter value: the derived address and
/// the reported salt when the pattern matches, nothing otherwise.
pub open spec fn candidate_outcome(s: Strategy, p: Pattern, base: Seq<u8>, nonce: u64) -> Option<
    (Seq<u8>, Seq<u8>),
> {
    let salt = with_counter_spec(base, nonce);
    let addr = s.derived_address(salt);
    if p.spec_matches(addr) {
        Some((addr, s.reported_salt(salt)))
    } else {
        None
    }
}

/// Evaluates one counter value: builds the full candidate salt in a buffer
/// of its own, derives the address, and tests it against the pattern.
pub fn try_candidate(s: &Strategy, p: &Pattern, base: &Vec<u8>, nonce: u64) -> (r: Option<
    MiningResult,
>)
    requires
        s.wf(),
        p.wf(),
        base@.len() == s.spec_salt_len(),
        nonce < MAX_NONCE,
    ensures
        match r {
            Some(res) => {
                &&& res.address.wf()
                &&& candidate_outcome(*s, *p, base@, nonce) == Some((res.address@, res.salt@))
            },
            None => candidate_outcome(*s, *p, base@, nonce) is None,
        },
{
    let salt = with_counter(base, nonce);
    let candidate = match s {
        Strategy::SingleStep { factory, init_code_hash } => derive_single_step(
            factory,
            &salt,
            init_code_hash,
        ),
        Strategy::TwoStep { factory } => derive_two_step(factory, &salt),
    };
    if p.check_candidate(&candidate) {
        let reported = match s {
            Strategy::SingleStep { .. } => salt,
            Strategy::TwoStep { .. } => {
                let mut tail: Vec<u8> = Vec::new();
                let mut i: usize = ENTROPY_START;
                while i < TWO_STEP_SALT_LEN
                    invariant
                        salt@.len() == TWO_STEP_SALT_LEN,
                        ENTROPY_START <= i <= TWO_STEP_SALT_LEN,
                        tail@ == salt@.subrange(ENTROPY_START as int, i as int),
                    decreases TWO_STEP_SALT_LEN - i,
                {
                    tail.push(salt[i]);
                    proof {
                        assert(tail@ =~= salt@.subrange(ENTROPY_START as int, i + 1 as int));
                    }
                    i += 1;
                }
                tail
            },
        };
        Some(MiningResult { address: candidate, salt: reported })
    } else {
        None
    }
}

/// Relies on rayon: `into_par_iter` over the counter range and
/// `find_map_any` hand back a value that the per-counter evaluation
/// returned for some counter of the range, and nothing only when every
/// evaluation came back empty.  Which matching counter wins is
/// scheduling-dependent and is not stated.
#[verifier::external_body]
fn parallel_batch(s: &Strategy, p: &Pattern, base: &Vec<u8>) -> (r: Option<MiningResult>)
    requires
        s.wf(),
        p.wf(),
        base@.len() == s.spec_salt_len(),
    ensures
        r matches Some(res) ==> res.address.wf() && exists|n: u64|
            n < MAX_NONCE && #[trigger] candidate_outcome(*s, *p, base@, n) == Some(
                (res.address@, res.salt@),
            ),
        r is None ==> forall|n: u64|
            n < MAX_NONCE ==> #[trigger] candidate_outcome(*s, *p, base@, n) is None,
{
    (0..MAX_NONCE).into_par_iter().find_map_any(|nonce| try_candidate(s, p, base, nonce))
}

/// Relies on rand::fill over a fresh buffer of `n` bytes; any outcome may
/// come back, so only the byte count is promised.
#[verifier::external_body]
fn random_bytes(n: usize) -> (r: Vec<u8>)
    ensures
        r@.len() == n,
{
    let mut buf = vec![0u8; n];
    rand::fill(buf.as_mut_slice());
    buf
}

/// Runs up to `max_batches` batches and stops at the first candidate that
/// matches: each batch binds the salt to the deployer, draws fresh entropy
/// for the middle segment, and scans the whole counter range in parallel.
/// On a match, the result's address is derived from the result's salt by
/// the scheme itself and matches the pattern.  A pattern without solutions
/// exhausts the batch budget and yields nothing; with a budget of
/// `u64::MAX` the search is for all practical purposes unbounded.  A
/// pattern that matches every candidate cannot come back empty: the very
/// first batch already yields.
pub fn search(strategy: &Strategy, deployer: &Address, pattern: &Pattern, max_batches: u64) -> (r:
    Option<MiningResult>)
    requires
        strategy.wf(),
        deployer.wf(),
        pattern.wf(),
    ensures
        r matches Some(res) ==> {
            &&& res.address.wf()
            &&& res.salt@.len() == SINGLE_STEP_SALT_LEN
            &&& pattern.spec_matches(res.address@)
            &&& (strategy matches Strategy::SingleStep { .. } ==> res.salt@.subrange(
                0,
                ADDRESS_LEN as int,
            ) == deployer@ && res.address@ == strategy.derived_address(res.salt@))
            &&& (strategy matches Strategy::TwoStep { .. } ==> res.address@
                == strategy.derived_address(deployer@ + res.salt@))
        },
        pattern.matches_all() && max_batches > 0 ==> r is Some,
{
    let salt_len = strategy.salt_len();
    let mut base = base_salt(deployer, salt_len);
    let mut batch: u64 = 0;
    while batch < max_batches
        invariant
            strategy.wf(),
            deployer.wf(),
            pattern.wf(),
            salt_len == strategy.spec_salt_len(),
            base@.len() == salt_len,
            base@.subrange(0, ADDRESS_LEN as int) == deployer@,
            batch <= max_batches,
            batch > 0 ==> !pattern.matches_all(),
        decreases max_batches - batch,
    {
        let entropy = random_bytes(salt_len - ENTROPY_START - COUNTER_LEN);
        refresh_entropy(&mut base, &entropy);
        proof {
            assert(base@.subrange(0, ADDRESS_LEN as int) =~= base@.subrange(
                0,
                ENTROPY_START as int,
            ).subrange(0, ADDRESS_LEN as int));
        }
        if let Some(res) = parallel_batch(strategy, pattern, &base) {
            proof {
                let n = choose|n: u64|
                    n < MAX_NONCE && #[trigger] candidate_outcome(
                        *strategy,
                        *pattern,
                        base@,
                        n,
                    ) == Some((res.address@, res.salt@));
                let full = with_counter_spec(base@, n);
                assert(full.subrange(0, ADDRESS_LEN as int) =~= base@.subrange(
                    0,
                    ADDRESS_LEN as int,
                ));
                match strategy {
                    Strategy::SingleStep { .. } => {
                        assert(res.salt@ == full);
                    },
                    Strategy::TwoStep { .. } => {
                        assert(res.salt@ == full.subrange(
                            ENTROPY_START as int,
                            TWO_STEP_SALT_LEN as int,
                        ));
                        assert(deployer@ + res.salt@ =~= full);
                    },
                }
            }
            return Some(res);
        }
        proof {
            if pattern.matches_all() {
                assert(candidate_outcome(*strategy, *pattern, base@, 0) is None);
                assert(pattern.spec_matches(
                    strategy.derived_address(with_counter_spec(base@, 0)),
                ));
                assert(false);
            }
        }
        batch += 1;
    }
    None
}

} // verus!
