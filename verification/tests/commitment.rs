use shield_chat::address::{bytes32_eq, Address};
use shield_chat::commitment::{commit, digest_matches, preimage_bytes, verify};

const ZERO_NONCE: [u8; 32] = [0u8; 32];
const ONES_NONCE: [u8; 32] = [0xffu8; 32];

// Keccak-256 of the byte 0x00 followed by 32 zero bytes.
const HEADS_ZERO: [u8; 32] = [
    0xf3, 0x9a, 0x86, 0x9f, 0x62, 0xe7, 0x5c, 0xf5, 0xf0, 0xbf, 0x91, 0x46, 0x88, 0xa6, 0xb2, 0x89,
    0xca, 0xf2, 0x04, 0x94, 0x35, 0xd8, 0xe6, 0x8c, 0x5c, 0x5e, 0x6d, 0x05, 0xe4, 0x49, 0x13, 0xf3,
];

// Keccak-256 of the byte 0x01 followed by 32 zero bytes.
const TAILS_ZERO: [u8; 32] = [
    0x0d, 0x67, 0x8e, 0x31, 0xa4, 0xb2, 0x82, 0x5b, 0x80, 0x6f, 0xe1, 0x60, 0x67, 0x5c, 0xd0, 0x1d,
    0xab, 0x15, 0x98, 0x02, 0xc7, 0xf9, 0x43, 0x97, 0xce, 0x45, 0xed, 0x91, 0xb5, 0xf3, 0xaa, 0xc6,
];

// Keccak-256 of the byte 0x00 followed by 32 bytes 0xff.
const HEADS_ONES: [u8; 32] = [
    0x83, 0x1f, 0xe8, 0x40, 0x46, 0x9a, 0xc8, 0x55, 0x81, 0xe3, 0xa7, 0x8c, 0xa6, 0x19, 0x80, 0xfe,
    0xcd, 0x4d, 0xfe, 0x72, 0x0a, 0xb0, 0x51, 0xfe, 0x53, 0x00, 0x15, 0x3b, 0x77, 0xf2, 0x8e, 0x4f,
];

// Keccak-256 of the byte 0x01 followed by 32 bytes 0xff.
const TAILS_ONES: [u8; 32] = [
    0x02, 0xa0, 0xf2, 0xd2, 0xb9, 0x2e, 0x1b, 0x8c, 0x9c, 0xc1, 0x03, 0x81, 0x8a, 0x30, 0xb3, 0x44,
    0x40, 0x1f, 0xce, 0x2f, 0xb2, 0x33, 0x10, 0x16, 0x10, 0xdf, 0xdd, 0x1a, 0x24, 0xaf, 0xee, 0x09,
];

// Keccak-256 of the byte 0x01 followed by the bytes 0x00, 0x01, .., 0x1f.
const TAILS_COUNTING: [u8; 32] = [
    0xe4, 0x6e, 0x20, 0xdb, 0x49, 0xe8, 0x42, 0x15, 0x4b, 0x39, 0x9b, 0x4b, 0x5f, 0x72, 0x00, 0x46,
    0x4f, 0x93, 0x70, 0xa5, 0xbe, 0xe4, 0xd9, 0x2a, 0x97, 0x1d, 0x96, 0xb2, 0x4d, 0x80, 0x2c, 0xfc,
];

fn counting_nonce() -> [u8; 32] {
    let mut nonce = [0u8; 32];
    for (i, byte) in nonce.iter_mut().enumerate() {
        *byte = i as u8;
    }
    nonce
}

#[test]
fn commit_gives_the_keccak_digest_for_the_zero_nonce() {
    assert_eq!(commit(0, &ZERO_NONCE), HEADS_ZERO);
    assert_eq!(commit(1, &ZERO_NONCE), TAILS_ZERO);
}

#[test]
fn commit_gives_the_keccak_digest_for_the_all_ones_nonce() {
    assert_eq!(commit(0, &ONES_NONCE), HEADS_ONES);
    assert_eq!(commit(1, &ONES_NONCE), TAILS_ONES);
}

#[test]
fn commit_hashes_the_choice_before_the_nonce() {
    assert_eq!(commit(1, &counting_nonce()), TAILS_COUNTING);
    // The nonce's first byte in place of the choice is another preimage.
    let mut shifted = [0u8; 32];
    shifted[0] = 1;
    assert_ne!(commit(0, &shifted), TAILS_COUNTING);
}

#[test]
fn commit_is_not_the_identity_on_its_input() {
    let digest = commit(0, &ZERO_NONCE);
    assert_ne!(digest, ZERO_NONCE);
    assert_ne!(commit(0, &ZERO_NONCE), commit(1, &ZERO_NONCE));
    assert_eq!(commit(0, &ZERO_NONCE), commit(0, &ZERO_NONCE));
}

#[test]
fn preimage_is_choice_byte_then_nonce() {
    let nonce = counting_nonce();
    let data = preimage_bytes(1, &nonce);
    assert_eq!(data.len(), 33);
    assert_eq!(data[0], 1);
    assert_eq!(&data[1..], &nonce[..]);
    let data = preimage_bytes(0, &ONES_NONCE);
    assert_eq!(data[0], 0);
    assert!(data[1..].iter().all(|b| *b == 0xff));
}

#[test]
fn verify_accepts_the_committed_choice_and_nonce() {
    assert!(verify(&HEADS_ZERO, 0, &ZERO_NONCE));
    assert!(verify(&TAILS_ZERO, 1, &ZERO_NONCE));
    assert!(verify(&HEADS_ONES, 0, &ONES_NONCE));
    assert!(verify(&TAILS_ONES, 1, &ONES_NONCE));
    assert!(verify(&TAILS_COUNTING, 1, &counting_nonce()));
}

#[test]
fn verify_rejects_the_other_choice() {
    assert!(!verify(&HEADS_ZERO, 1, &ZERO_NONCE));
    assert!(!verify(&TAILS_ZERO, 0, &ZERO_NONCE));
    assert!(!verify(&HEADS_ONES, 1, &ONES_NONCE));
    assert!(!verify(&TAILS_ONES, 0, &ONES_NONCE));
}

#[test]
fn verify_rejects_every_single_bit_change_of_the_choice() {
    for bit in 0..8u8 {
        assert!(!verify(&HEADS_ZERO, 0 ^ (1 << bit), &ZERO_NONCE));
        assert!(!verify(&TAILS_ONES, 1 ^ (1 << bit), &ONES_NONCE));
    }
}

#[test]
fn verify_rejects_every_single_bit_change_of_the_zero_nonce() {
    for byte in 0..32 {
        for bit in 0..8 {
            let mut nonce = ZERO_NONCE;
            nonce[byte] ^= 1 << bit;
            assert!(!verify(&HEADS_ZERO, 0, &nonce), "byte {byte} bit {bit}");
            assert!(!verify(&TAILS_ZERO, 1, &nonce), "byte {byte} bit {bit}");
        }
    }
}

#[test]
fn verify_rejects_every_single_bit_change_of_the_all_ones_nonce() {
    for byte in 0..32 {
        for bit in 0..8 {
            let mut nonce = ONES_NONCE;
            nonce[byte] ^= 1 << bit;
            assert!(!verify(&HEADS_ONES, 0, &nonce), "byte {byte} bit {bit}");
            assert!(!verify(&TAILS_ONES, 1, &nonce), "byte {byte} bit {bit}");
        }
    }
}

#[test]
fn verify_rejects_every_single_bit_change_of_the_commitment() {
    for byte in 0..32 {
        for bit in 0..8 {
            let mut commitment = HEADS_ZERO;
            commitment[byte] ^= 1 << bit;
            assert!(!verify(&commitment, 0, &ZERO_NONCE), "byte {byte} bit {bit}");
        }
    }
}

#[test]
fn verify_agrees_with_commit_on_many_nonces() {
    for seed in 0..=255u8 {
        let mut nonce = [seed; 32];
        nonce[31] = seed.wrapping_mul(7);
        for choice in 0..=1u8 {
            let commitment = commit(choice, &nonce);
            assert!(verify(&commitment, choice, &nonce));
            assert!(!verify(&commitment, 1 - choice, &nonce));
        }
    }
}

#[test]
fn digest_matches_compares_all_32_bytes() {
    assert!(digest_matches(&HEADS_ZERO, &HEADS_ZERO));
    assert!(!digest_matches(&HEADS_ZERO, &TAILS_ZERO));
    let mut last = HEADS_ZERO;
    last[31] ^= 1;
    assert!(!digest_matches(&HEADS_ZERO, &last));
    let mut first = HEADS_ZERO;
    first[0] ^= 0x80;
    assert!(!digest_matches(&HEADS_ZERO, &first));
}

#[test]
fn bytes32_eq_is_exact() {
    assert!(bytes32_eq(&ZERO_NONCE, &ZERO_NONCE));
    assert!(!bytes32_eq(&ZERO_NONCE, &ONES_NONCE));
    for i in 0..32 {
        let mut other = ONES_NONCE;
        other[i] = 0xfe;
        assert!(!bytes32_eq(&ONES_NONCE, &other));
    }
}

#[test]
fn addresses_compare_by_their_bytes() {
    let a = Address::new([7u8; 32]);
    let b = Address::new([7u8; 32]);
    let mut bytes = [7u8; 32];
    bytes[31] = 8;
    let c = Address::new(bytes);
    assert_eq!(a.bytes, [7u8; 32]);
    assert!(a == b);
    assert!(a != c);
    assert_eq!(Some(a), Some(b));
    assert_ne!(Some(a), None);
}
