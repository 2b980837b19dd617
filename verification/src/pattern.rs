//! The bit-pattern matcher and the construction of its two masks: a fixed
//! low-bit flags mask and a variable-width high-bit prefix mask.

use vstd::prelude::*;

verus! {

use crate::ADDRESS_LEN;
use crate::is_address;
use crate::types::Address;
use crate::hex::{all_hex_digits, hex_to_address, hex_to_address_spec};

/// Longest prefix, in hex digits, for which a mask can be built.
pub const MAX_PREFIX_LEN: usize = 14;

/// The flags constraint covers the low 14 bits of an address: the low six
/// bits of byte 18 and all of byte 19.
pub open spec fn flags_mask_spec() -> Seq<u8> {
    Seq::new(
        ADDRESS_LEN as nat,
        |i: int|
            if i == 18 {
                0x3fu8
            } else if i == 19 {
                0xffu8
            } else {
                0u8
            },
    )
}

/// Builds the fixed flags mask.
pub fn flags_mask() -> (r: Address)
    ensures
        r.wf(),
        r@ == flags_mask_spec(),
{
    let mut bytes: Vec<u8> = Vec::new();
    let mut i: usize = 0;
    while i < 18
        invariant
            i <= 18,
            bytes@.len() == i,
            forall|k: int| 0 <= k < i ==> bytes@[k] == 0u8,
        decreases 18 - i,
    {
        bytes.push(0);
        i += 1;
    }
    bytes.push(0x3f);
    bytes.push(0xff);
    proof {
        assert(bytes@ =~= flags_mask_spec());
    }
    Address::from_bytes(bytes)
}

/// The mask word for a prefix of `l` hex digits.  An even `l` sets the low
/// `4l` bits; an odd `l` also sets the following half byte, so that an odd
/// number of digits still gives an exact high-bit match once the word is
/// laid out over the address.
pub open spec fn prefix_mask_num(l: u64) -> u64
    recommends
        l <= MAX_PREFIX_LEN,
{
    if l % 2 == 0 {
        ((1u64 << ((4 * l) as u64)) - 1) as u64
    } else {
        ((1u64 << ((4 * l + 4) as u64)) - (15u64 << ((4 * l - 4) as u64)) - 1) as u64
    }
}

/// The prefix mask address: the mask word's little-endian bytes fill the
/// first eight bytes of the address, so the word's low bits cover the
/// address's leading hex digits.
pub open spec fn prefix_mask_spec(l: u64) -> Seq<u8> {
    Seq::new(
        ADDRESS_LEN as nat,
        |i: int|
            if i < 8 {
                (((prefix_mask_num(l) >> (8 * i)) & 0xff) as u8)
            } else {
                0u8
            },
    )
}

/// Builds the bitmask that isolates the upper `prefix_len` hex digits of an
/// address.
pub fn compute_prefix_mask(prefix_len: usize) -> (r: Address)
    requires
        prefix_len <= MAX_PREFIX_LEN,
    ensures
        r.wf(),
        r@ == prefix_mask_spec(prefix_len as u64),
{
    let l = prefix_len as u64;
    let mask_number: u64 = if l % 2 == 0 {
        proof {
            assert(1u64 << ((4 * l) as u64) >= 1) by (bit_vector)
                requires
                    l <= 14,
            ;
        }
        (1u64 << ((4 * l) as u64)) - 1
    } else {
        proof {
            assert(1u64 << ((4 * l + 4) as u64) >= (15u64 << ((4 * l - 4) as u64)) + 1) by (bit_vector)
                requires
                    l <= 14 && l % 2 == 1,
            ;
        }
        (1u64 << ((4 * l + 4) as u64)) - (15u64 << ((4 * l - 4) as u64)) - 1
    };
    let mut bytes: Vec<u8> = Vec::new();
    let mut i: usize = 0;
    while i < 8
        invariant
            i <= 8,
            bytes@.len() == i,
            mask_number == prefix_mask_num(l),
            forall|k: int| 0 <= k < i ==> bytes@[k] == prefix_mask_spec(l)[k],
        decreases 8 - i,
    {
        bytes.push(#[verifier::truncate] (((mask_number >> (8 * i as u64)) & 0xff) as u8));
        i += 1;
    }
    while i < ADDRESS_LEN
        invariant
            8 <= i <= ADDRESS_LEN,
            bytes@.len() == i,
            forall|k: int| 0 <= k < i ==> bytes@[k] == prefix_mask_spec(l)[k],
        decreases ADDRESS_LEN - i,
    {
        bytes.push(0);
        i += 1;
    }
    proof {
        assert(bytes@ =~= prefix_mask_spec(l));
    }
    Address::from_bytes(bytes)
}

/// Every byte of `c`, masked by `m`, equals the corresponding byte of `t`.
pub open spec fn masked_eq(c: Seq<u8>, t: Seq<u8>, m: Seq<u8>) -> bool {
    forall|i: int| 0 <= i < ADDRESS_LEN ==> #[trigger] (c[i] & m[i]) == t[i]
}

/// The matcher: a candidate address matches when it agrees with the flags
/// target under the flags mask and with the prefix target under the prefix
/// mask.
pub open spec fn address_matches(
    c: Seq<u8>,
    flags_target: Seq<u8>,
    flags_mask: Seq<u8>,
    prefix_target: Seq<u8>,
    prefix_mask: Seq<u8>,
) -> bool {
    masked_eq(c, flags_target, flags_mask) && masked_eq(c, prefix_target, prefix_mask)
}

/// A target pattern: two independently specifiable constraints, each a
/// target value under a mask over the address bytes.
pub struct Pattern {
    pub flags_target: Address,
    pub flags_mask: Address,
    pub prefix_target: Address,
    pub prefix_mask: Address,
}

impl Pattern {
    pub open spec fn wf(&self) -> bool {
        &&& self.flags_target.wf()
        &&& self.flags_mask.wf()
        &&& self.prefix_target.wf()
        &&& self.prefix_mask.wf()
    }

    /// What it means for a candidate address to match this pattern.
    pub open spec fn spec_matches(&self, c: Seq<u8>) -> bool {
        address_matches(c, self.flags_target@, self.flags_mask@, self.prefix_target@, self.prefix_mask@)
    }

    /// A pattern both of whose constraints hold of every candidate; the
    /// all-zero pattern is one.
    pub open spec fn matches_all(&self) -> bool {
        forall|a: Seq<u8>| #[trigger] self.spec_matches(a)
    }

    /// Builds the pattern of a run from its two hex strings: the flags
    /// string is padded with leading zeros and matched under the fixed
    /// flags mask; the prefix string is padded with trailing zeros and
    /// matched under the mask derived from its length.
    pub fn from_strings(flags: &String, prefix: &String) -> (r: Pattern)
        requires
            flags@.len() <= 40,
            all_hex_digits(flags@),
            prefix@.len() <= MAX_PREFIX_LEN,
            all_hex_digits(prefix@),
        ensures
            r.wf(),
            r.flags_target@ == hex_to_address_spec(flags@, true),
            r.flags_mask@ == flags_mask_spec(),
            r.prefix_target@ == hex_to_address_spec(prefix@, false),
            r.prefix_mask@ == prefix_mask_spec(prefix@.len() as u64),
    {
        let prefix_mask = compute_prefix_mask(prefix.as_str().unicode_len());
        Pattern {
            flags_target: hex_to_address(flags, true),
            flags_mask: flags_mask(),
            prefix_target: hex_to_address(prefix, false),
            prefix_mask,
        }
    }

    /// Checks whether a candidate address matches the pattern.
    pub fn check_candidate(&self, candidate: &Address) -> (r: bool)
        requires
            self.wf(),
            candidate.wf(),
        ensures
            r == self.spec_matches(candidate@),
    {
        let mut i: usize = 0;
        while i < ADDRESS_LEN
            invariant
                self.wf(),
                candidate.wf(),
                i <= ADDRESS_LEN,
                forall|k: int|
                    0 <= k < i ==> #[trigger] (candidate@[k] & self.flags_mask@[k])
                        == self.flags_target@[k],
                forall|k: int|
                    0 <= k < i ==> #[trigger] (candidate@[k] & self.prefix_mask@[k])
                        == self.prefix_target@[k],
            decreases ADDRESS_LEN - i,
        {
            if candidate.bytes[i] & self.flags_mask.bytes[i] != self.flags_target.bytes[i] {
                return false;
            }
            if candidate.bytes[i] & self.prefix_mask.bytes[i] != self.prefix_target.bytes[i] {
                return false;
            }
            i += 1;
        }
        true
    }
}

/// The bytes of `a` masked by `m`.
pub open spec fn mask_bytes(a: Seq<u8>, m: Seq<u8>) -> Seq<u8> {
    Seq::new(ADDRESS_LEN as nat, |i: int| a[i] & m[i])
}

/// The all-zero address.
pub open spec fn zero_address() -> Seq<u8> {
    Seq::new(ADDRESS_LEN as nat, |i: int| 0u8)
}

/// Matcher correctness, first half: any address matches the targets derived
/// from it by masking, whatever the two masks are.
pub proof fn lemma_matches_derived_target(a: Seq<u8>, fm: Seq<u8>, pm: Seq<u8>)
    requires
        is_address(a),
        is_address(fm),
        is_address(pm),
    ensures
        address_matches(a, mask_bytes(a, fm), fm, mask_bytes(a, pm), pm),
{
}

/// Matcher correctness, second half: flipping any flags-target bit that
/// lies inside the flags mask defeats the match.
pub proof fn lemma_matches_flipped_flags(a: Seq<u8>, fm: Seq<u8>, pm: Seq<u8>, i: int, k: u8)
    requires
        is_address(a),
        is_address(fm),
        is_address(pm),
        0 <= i < ADDRESS_LEN,
        k < 8,
        fm[i] >> k & 1 == 1,
    ensures
        !address_matches(
            a,
            mask_bytes(a, fm).update(i, mask_bytes(a, fm)[i] ^ (1u8 << k)),
            fm,
            mask_bytes(a, pm),
            pm,
        ),
{
    let x = mask_bytes(a, fm)[i];
    assert(x ^ (1u8 << k) != x) by (bit_vector)
        requires
            k < 8,
    ;
}

/// Matcher correctness, second half, for the prefix side: flipping any
/// prefix-target bit that lies inside the prefix mask defeats the match.
pub proof fn lemma_matches_flipped_prefix(a: Seq<u8>, fm: Seq<u8>, pm: Seq<u8>, i: int, k: u8)
    requires
        is_address(a),
        is_address(fm),
        is_address(pm),
        0 <= i < ADDRESS_LEN,
        k < 8,
        pm[i] >> k & 1 == 1,
    ensures
        !address_matches(
            a,
            mask_bytes(a, fm),
            fm,
            mask_bytes(a, pm).update(i, mask_bytes(a, pm)[i] ^ (1u8 << k)),
            pm,
        ),
{
    let x = mask_bytes(a, pm)[i];
    assert(x ^ (1u8 << k) != x) by (bit_vector)
        requires
            k < 8,
    ;
}

/// A pattern whose masks and targets are all zero matches every candidate.
pub proof fn lemma_trivial_pattern_matches_all()
    ensures
        forall|a: Seq<u8>| #[trigger] address_matches(
            a,
            zero_address(),
            zero_address(),
            zero_address(),
            zero_address(),
        ),
{
    assert forall|a: Seq<u8>| #[trigger] address_matches(
        a,
        zero_address(),
        zero_address(),
        zero_address(),
        zero_address(),
    ) by {
        assert forall|i: int| 0 <= i < ADDRESS_LEN implies #[trigger] (a[i] & zero_address()[i])
            == zero_address()[i] by {
            let x = a[i];
            assert(x & 0u8 == 0u8) by (bit_vector);
        }
    }
}

/// The all-zero pattern therefore matches every candidate; together with
/// the search engine's contract, a run on it returns within its first
/// batch.
pub proof fn lemma_zero_pattern_matches_all(p: Pattern)
    requires
        p.flags_target@ == zero_address(),
        p.flags_mask@ == zero_address(),
        p.prefix_target@ == zero_address(),
        p.prefix_mask@ == zero_address(),
    ensures
        p.matches_all(),
{
    lemma_trivial_pattern_matches_all();
}

/// Growing the prefix by one digit only adds bits: every bit of the mask
/// word for `l` digits is kept in the word for `l + 1`, and the new digit
/// contributes exactly one more nibble, at the half-byte position the
/// even/odd rule assigns it.
pub proof fn lemma_prefix_mask_grows(l: u64)
    requires
        l < MAX_PREFIX_LEN,
    ensures
        prefix_mask_num(l) & prefix_mask_num((l + 1) as u64) == prefix_mask_num(l),
        prefix_mask_num((l + 1) as u64) != prefix_mask_num(l),
        l % 2 == 0 ==> prefix_mask_num((l + 1) as u64) == prefix_mask_num(l) | (0xf0u64 << ((4 * l) as u64)),
        l % 2 == 1 ==> prefix_mask_num((l + 1) as u64) == prefix_mask_num(l) | (0xfu64 << ((4 * l - 4) as u64)),
{
    assert(prefix_mask_num(l) & prefix_mask_num((l + 1) as u64) == prefix_mask_num(l)
        && prefix_mask_num((l + 1) as u64) != prefix_mask_num(l)
        && (l % 2 == 0 ==> prefix_mask_num((l + 1) as u64) == prefix_mask_num(l) | (0xf0u64 << ((4
        * l) as u64)))
        && (l % 2 == 1 ==> prefix_mask_num((l + 1) as u64) == prefix_mask_num(l) | (0xfu64 << ((4
        * l - 4) as u64)))) by (bit_vector)
        requires
            l < 14,
    ;
}

/// What the laid-out mask means digit by digit: hex digit `j` of the mask
/// address is full exactly when `j` lies within the prefix length, so the
/// mask isolates the top `l` digits and nothing else.  Digit `2i` is the
/// high nibble of byte `i`, digit `2i + 1` its low nibble.
pub proof fn lemma_prefix_mask_covers_digits(l: u64, i: int)
    requires
        l <= MAX_PREFIX_LEN,
        0 <= i < ADDRESS_LEN,
    ensures
        prefix_mask_spec(l)[i] == if 2 * i + 1 < l {
            0xffu8
        } else if 2 * i < l {
            0xf0u8
        } else {
            0u8
        },
{
    if i < 8 {
        let iu = i as u64;
        let m = prefix_mask_num(l);
        assert((((m >> ((8 * iu) as u64)) & 0xff) as u8) == (if 2 * iu + 1 < l {
            0xffu8
        } else if 2 * iu < l {
            0xf0u8
        } else {
            0u8
        })) by (bit_vector)
            requires
                l <= 14,
                iu < 8,
                m == prefix_mask_num(l),
        ;
        assert(prefix_mask_spec(l)[i] == ((m >> (8 * i)) & 0xff) as u8);
        assert((8 * iu) as u64 == 8 * i);
    }
}

/// The containment of `lemma_prefix_mask_grows`, lifted to the mask
/// addresses: every bit set in the mask for `l` digits is set in the mask
/// for `l + 1` digits.
pub proof fn lemma_prefix_mask_superset(l: u64)
    requires
        l < MAX_PREFIX_LEN,
    ensures
        forall|i: int|
            0 <= i < ADDRESS_LEN ==> #[trigger] (prefix_mask_spec(l)[i] & prefix_mask_spec(
                (l + 1) as u64,
            )[i]) == prefix_mask_spec(l)[i],
{
    lemma_prefix_mask_grows(l);
    let a = prefix_mask_num(l);
    let b = prefix_mask_num((l + 1) as u64);
    assert forall|i: int| 0 <= i < ADDRESS_LEN implies #[trigger] (prefix_mask_spec(l)[i]
        & prefix_mask_spec((l + 1) as u64)[i]) == prefix_mask_spec(l)[i] by {
        if i < 8 {
            let s = (8 * i) as u64;
            assert((((a >> s) & 0xff) as u8) & (((b >> s) & 0xff) as u8) == ((a >> s) & 0xff) as u8)
                by (bit_vector)
                requires
                    a & b == a,
            ;
        } else {
            assert(0u8 & 0u8 == 0u8) by (bit_vector);
        }
    }
}

} // verus!
