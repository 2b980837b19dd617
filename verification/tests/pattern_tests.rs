use piwi::hex::{hex_to_address, is_hex_string};
use piwi::pattern::{compute_prefix_mask, flags_mask, Pattern};
use piwi::types::Address;

fn address_of(bytes: Vec<u8>) -> Address {
    Address::from_bytes(bytes)
}

fn zero_address() -> Address {
    address_of(vec![0u8; 20])
}

#[test]
fn hex_pads_leading_zeros() {
    let parsed = hex_to_address(&String::from("abc"), true);
    let mut expected = vec![0u8; 20];
    expected[18] = 0x0a;
    expected[19] = 0xbc;
    assert_eq!(parsed, address_of(expected));
}

#[test]
fn hex_pads_trailing_zeros() {
    let parsed = hex_to_address(&String::from("abc"), false);
    let mut expected = vec![0u8; 20];
    expected[0] = 0xab;
    expected[1] = 0xc0;
    assert_eq!(parsed, address_of(expected));
}

#[test]
fn hex_accepts_both_cases() {
    let lower = hex_to_address(&String::from("9fc3dc011b461664c835f2527fffb1169b3c213e"), true);
    let upper = hex_to_address(&String::from("9FC3DC011B461664C835F2527FFFB1169B3C213E"), true);
    assert_eq!(lower, upper);
}

#[test]
fn hex_string_validation() {
    assert!(is_hex_string(&String::from("0123456789abcdefABCDEF")));
    assert!(is_hex_string(&String::from("")));
    assert!(!is_hex_string(&String::from("0x12")));
    assert!(!is_hex_string(&String::from("12g4")));
}

#[test]
fn flags_mask_isolates_low_14_bits() {
    let mask = flags_mask();
    let mut expected = vec![0u8; 20];
    expected[18] = 0x3f;
    expected[19] = 0xff;
    assert_eq!(mask, address_of(expected));
}

#[test]
fn prefix_mask_exact_values() {
    assert_eq!(compute_prefix_mask(0), zero_address());

    let mut one = vec![0u8; 20];
    one[0] = 0xf0;
    assert_eq!(compute_prefix_mask(1), address_of(one));

    let mut two = vec![0u8; 20];
    two[0] = 0xff;
    assert_eq!(compute_prefix_mask(2), address_of(two));

    let mut three = vec![0u8; 20];
    three[0] = 0xff;
    three[1] = 0xf0;
    assert_eq!(compute_prefix_mask(3), address_of(three));

    let mut fourteen = vec![0u8; 20];
    for byte in fourteen.iter_mut().take(7) {
        *byte = 0xff;
    }
    assert_eq!(compute_prefix_mask(14), address_of(fourteen));
}

#[test]
fn prefix_mask_widens_one_nibble_at_a_time() {
    for l in 0..14usize {
        let narrow = compute_prefix_mask(l);
        let wide = compute_prefix_mask(l + 1);
        let mut new_bits = 0u32;
        for i in 0..20 {
            let n = narrow.bytes[i];
            let w = wide.bytes[i];
            assert_eq!(n & w, n, "mask for {} digits must keep every bit", l);
            new_bits += (w & !n).count_ones();
        }
        assert_eq!(new_bits, 4, "one more digit must add exactly four bits");
    }
}

#[test]
fn matcher_accepts_derived_target() {
    let candidate = address_of(vec![
        0x12, 0x34, 0x56, 0x78, 0x9a, 0xbc, 0xde, 0xf0, 0x11, 0x22, 0x33, 0x44, 0x55, 0x66, 0x77,
        0x88, 0x99, 0xaa, 0xbb, 0xcc,
    ]);
    let flags_mask = flags_mask();
    let prefix_mask = compute_prefix_mask(5);
    let flags_target_bytes: Vec<u8> = candidate
        .bytes
        .iter()
        .zip(flags_mask.bytes.iter())
        .map(|(c, m)| c & m)
        .collect();
    let prefix_target_bytes: Vec<u8> = candidate
        .bytes
        .iter()
        .zip(prefix_mask.bytes.iter())
        .map(|(c, m)| c & m)
        .collect();
    let pattern = Pattern {
        flags_target: address_of(flags_target_bytes),
        flags_mask,
        prefix_target: address_of(prefix_target_bytes),
        prefix_mask,
    };
    assert!(pattern.check_candidate(&candidate));
}

#[test]
fn matcher_rejects_flipped_bit_inside_mask() {
    let candidate = address_of(vec![
        0x12, 0x34, 0x56, 0x78, 0x9a, 0xbc, 0xde, 0xf0, 0x11, 0x22, 0x33, 0x44, 0x55, 0x66, 0x77,
        0x88, 0x99, 0xaa, 0xbb, 0xcc,
    ]);
    let flags_mask = flags_mask();
    let prefix_mask = compute_prefix_mask(5);
    let flags_target_bytes: Vec<u8> = candidate
        .bytes
        .iter()
        .zip(flags_mask.bytes.iter())
        .map(|(c, m)| c & m)
        .collect();
    let prefix_target_bytes: Vec<u8> = candidate
        .bytes
        .iter()
        .zip(prefix_mask.bytes.iter())
        .map(|(c, m)| c & m)
        .collect();

    // Flip the lowest bit of the flags target: byte 19 lies inside the mask.
    let mut flipped_flags = flags_target_bytes.clone();
    flipped_flags[19] ^= 0x01;
    let pattern = Pattern {
        flags_target: address_of(flipped_flags),
        flags_mask: flags_mask.clone(),
        prefix_target: address_of(prefix_target_bytes.clone()),
        prefix_mask: prefix_mask.clone(),
    };
    assert!(!pattern.check_candidate(&candidate));

    // Flip the highest bit of the prefix target: byte 0 lies inside the mask.
    let mut flipped_prefix = prefix_target_bytes.clone();
    flipped_prefix[0] ^= 0x80;
    let pattern = Pattern {
        flags_target: address_of(flags_target_bytes),
        flags_mask,
        prefix_target: address_of(flipped_prefix),
        prefix_mask,
    };
    assert!(!pattern.check_candidate(&candidate));
}

#[test]
fn trivial_pattern_matches_any_address() {
    let pattern = Pattern {
        flags_target: zero_address(),
        flags_mask: zero_address(),
        prefix_target: zero_address(),
        prefix_mask: zero_address(),
    };
    let candidate = address_of(vec![0xffu8; 20]);
    assert!(pattern.check_candidate(&candidate));
    assert!(pattern.check_candidate(&zero_address()));
}
