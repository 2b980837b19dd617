//! Hex-string conversion: a hex string of at most 40 digits, zero-padded
//! on either side, denotes an address.

use vstd::prelude::*;
use vstd::string::StrSliceExecFns;

verus! {

use crate::ADDRESS_LEN;
use crate::types::Address;

/// Width of an address in hex digits.
pub const ADDRESS_HEX_LEN: usize = 40;

/// Hex digits: `0`-`9`, `a`-`f`, `A`-`F`.
pub open spec fn is_hex_digit(c: char) -> bool {
    ||| 48 <= c as u32 && c as u32 <= 57
    ||| 97 <= c as u32 && c as u32 <= 102
    ||| 65 <= c as u32 && c as u32 <= 70
}

/// The numeric value of a hex digit.
pub open spec fn hex_digit_value(c: char) -> u8
    recommends
        is_hex_digit(c),
{
    if 48 <= c as u32 && c as u32 <= 57 {
        (c as u32 - 48) as u8
    } else if 97 <= c as u32 && c as u32 <= 102 {
        (c as u32 - 87) as u8
    } else {
        (c as u32 - 55) as u8
    }
}

pub open spec fn all_hex_digits(s: Seq<char>) -> bool {
    forall|i: int| 0 <= i < s.len() ==> is_hex_digit(#[trigger] s[i])
}

/// The character at position `j` of the 40-character zero-padding of `s`:
/// leading zeros when `pad_leading` is set, trailing zeros otherwise.
pub open spec fn padded_char(s: Seq<char>, pad_leading: bool, j: int) -> char
    recommends
        s.len() <= ADDRESS_HEX_LEN,
        0 <= j < ADDRESS_HEX_LEN,
{
    if pad_leading {
        if j < ADDRESS_HEX_LEN - s.len() {
            '0'
        } else {
            s[j - (ADDRESS_HEX_LEN - s.len())]
        }
    } else {
        if j < s.len() {
            s[j]
        } else {
            '0'
        }
    }
}

/// The address denoted by the zero-padded 40-digit hex expansion of `s`:
/// byte `i` is read from digits `2i` and `2i + 1`.
pub open spec fn hex_to_address_spec(s: Seq<char>, pad_leading: bool) -> Seq<u8> {
    Seq::new(
        ADDRESS_LEN as nat,
        |i: int|
            (16 * hex_digit_value(padded_char(s, pad_leading, 2 * i)) + hex_digit_value(
                padded_char(s, pad_leading, 2 * i + 1),
            )) as u8,
    )
}

fn hex_char_value(c: char) -> (r: u8)
    requires
        is_hex_digit(c),
    ensures
        r == hex_digit_value(c),
        r <= 15,
{
    let u = c as u32;
    if 48 <= u && u <= 57 {
        (u - 48) as u8
    } else if 97 <= u && u <= 102 {
        (u - 87) as u8
    } else {
        (u - 55) as u8
    }
}

fn padded_char_at(s: &str, len: usize, pad_leading: bool, j: usize) -> (c: char)
    requires
        s@.len() == len,
        len <= ADDRESS_HEX_LEN,
        j < ADDRESS_HEX_LEN,
    ensures
        c == padded_char(s@, pad_leading, j as int),
{
    if pad_leading {
        if j < ADDRESS_HEX_LEN - len {
            '0'
        } else {
            s.get_char(j - (ADDRESS_HEX_LEN - len))
        }
    } else {
        if j < len {
            s.get_char(j)
        } else {
            '0'
        }
    }
}

/// Converts a hex string of at most 40 digits to an address, padding with
/// leading zeros when `pad_leading_zeros` is set and with trailing zeros
/// otherwise.
pub fn hex_to_address(hex: &String, pad_leading_zeros: bool) -> (r: Address)
    requires
        hex@.len() <= ADDRESS_HEX_LEN,
        all_hex_digits(hex@),
    ensures
        r.wf(),
        r@ == hex_to_address_spec(hex@, pad_leading_zeros),
{
    let s = hex.as_str();
    let len = s.unicode_len();
    let mut bytes: Vec<u8> = Vec::new();
    let mut i: usize = 0;
    while i < ADDRESS_LEN
        invariant
            s@ == hex@,
            len == hex@.len(),
            len <= ADDRESS_HEX_LEN,
            all_hex_digits(hex@),
            i <= ADDRESS_LEN,
            bytes@.len() == i,
            forall|k: int|
                0 <= k < i ==> bytes@[k] == hex_to_address_spec(hex@, pad_leading_zeros)[k],
        decreases ADDRESS_LEN - i,
    {
        let hi = padded_char_at(s, len, pad_leading_zeros, 2 * i);
        let lo = padded_char_at(s, len, pad_leading_zeros, 2 * i + 1);
        bytes.push(16 * hex_char_value(hi) + hex_char_value(lo));
        i += 1;
    }
    proof {
        assert(bytes@ =~= hex_to_address_spec(hex@, pad_leading_zeros));
    }
    Address::from_bytes(bytes)
}

/// True exactly when every character of `s` is a hex digit; lets callers
/// establish the precondition of `hex_to_address` at run time.
pub fn is_hex_string(s: &String) -> (r: bool)
    ensures
        r == all_hex_digits(s@),
{
    let sl = s.as_str();
    let len = sl.unicode_len();
    let mut i: usize = 0;
    while i < len
        invariant
            sl@ == s@,
            len == s@.len(),
            i <= len,
            forall|k: int| 0 <= k < i ==> is_hex_digit(#[trigger] s@[k]),
        decreases len - i,
    {
        let u = sl.get_char(i) as u32;
        if !((48 <= u && u <= 57) || (97 <= u && u <= 102) || (65 <= u && u <= 70)) {
            return false;
        }
        i += 1;
    }
    true
}

} // verus!
