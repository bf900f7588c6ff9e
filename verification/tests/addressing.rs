use shield_chat::address::Address;
use shield_chat::addressing::{
    channel_address, coinflip_game_address, member_address, poll_address, seed_bytes,
    stake_address, tictactoe_game_address, vault_address, vault_authority_address,
    vote_record_address, CHANNEL_SEED, COINFLIP_SEED, MEMBER_SEED, POLL_SEED, STAKE_SEED,
    TICTACTOE_SEED, VAULT_AUTH_SEED, VAULT_SEED, VOTE_RECORD_SEED,
};

fn program() -> Address {
    Address::new([0x50; 32])
}

fn channel() -> Address {
    Address::new([0x0C; 32])
}

fn creator() -> Address {
    Address::new([0xA1; 32])
}

fn found(bytes: [u8; 32], bump: u8) -> Option<(Address, u8)> {
    Some((Address::new(bytes), bump))
}

#[test]
fn seed_tags_spell_their_names() {
    assert_eq!(&COINFLIP_SEED, b"coinflip");
    assert_eq!(&TICTACTOE_SEED, b"tictactoe");
    assert_eq!(&CHANNEL_SEED, b"channel");
    assert_eq!(&MEMBER_SEED, b"member");
    assert_eq!(&VAULT_SEED, b"vault");
    assert_eq!(&VAULT_AUTH_SEED, b"vault_auth");
    assert_eq!(&STAKE_SEED, b"stake");
    assert_eq!(&POLL_SEED, b"poll");
    assert_eq!(&VOTE_RECORD_SEED, b"vote_record");
}

#[test]
fn seed_bytes_copies_in_order() {
    assert_eq!(seed_bytes(&[1u8, 2, 3]), vec![1, 2, 3]);
    assert_eq!(seed_bytes(&[0u8; 0]), Vec::<u8>::new());
    assert_eq!(seed_bytes(&COINFLIP_SEED), b"coinflip".to_vec());
}

#[test]
fn coinflip_game_addresses() {
    assert_eq!(
        coinflip_game_address(&program(), &channel(), &creator(), 0),
        found(
            [
                0xd9, 0x8d, 0x5a, 0x3a, 0x67, 0xf6, 0x9a, 0xc1, 0x40, 0xcd, 0x52, 0xe2, 0xa0,
                0x33, 0xdf, 0x72, 0xfc, 0x8c, 0xfa, 0xef, 0x28, 0x1f, 0x67, 0x0f, 0xb9, 0x18,
                0xc3, 0x4d, 0x92, 0x97, 0x84, 0x87
            ],
            254
        )
    );
    assert_eq!(
        coinflip_game_address(&program(), &channel(), &creator(), 1),
        found(
            [
                0x3d, 0xce, 0xfa, 0x75, 0xa3, 0xac, 0x09, 0xff, 0xa4, 0x55, 0xe6, 0x34, 0xc1,
                0x2b, 0xff, 0xac, 0x60, 0xe7, 0x4e, 0x41, 0xde, 0x6e, 0x37, 0x98, 0xef, 0x53,
                0x1d, 0x99, 0x32, 0x11, 0x82, 0x37
            ],
            254
        )
    );
}

#[test]
fn the_nonce_is_written_lowest_byte_first() {
    assert_eq!(
        coinflip_game_address(&program(), &channel(), &creator(), 0x0102030405060708),
        found(
            [
                0xaa, 0xdd, 0x64, 0x08, 0xaa, 0xed, 0x6b, 0x1c, 0x25, 0x56, 0xa1, 0x45, 0xe7,
                0x8c, 0x2d, 0x28, 0xb1, 0x08, 0xa7, 0xa2, 0xec, 0x78, 0x7d, 0x58, 0xf1, 0xb3,
                0xe5, 0xa7, 0xe3, 0xa9, 0xb0, 0x20
            ],
            254
        )
    );
}

#[test]
fn tictactoe_and_poll_addresses() {
    assert_eq!(
        tictactoe_game_address(&program(), &channel(), &creator(), 0),
        found(
            [
                0xde, 0x61, 0x1f, 0x0c, 0xf0, 0x48, 0x75, 0x57, 0x6b, 0x85, 0x67, 0x4c, 0x64,
                0xb2, 0x14, 0xe8, 0xba, 0x19, 0xc0, 0x48, 0x3d, 0xdc, 0xc1, 0x4f, 0xee, 0x05,
                0x03, 0x0e, 0xe9, 0x2d, 0xc3, 0xfe
            ],
            255
        )
    );
    assert_eq!(
        poll_address(&program(), &channel(), &creator(), 7),
        found(
            [
                0xd3, 0xd0, 0xeb, 0xf3, 0xbd, 0xd3, 0xa5, 0xa4, 0xfc, 0x50, 0x5a, 0xf6, 0x91,
                0xa3, 0x8f, 0xed, 0xa4, 0x86, 0x8e, 0x26, 0x4b, 0xed, 0x6e, 0x15, 0xf1, 0x1f,
                0x69, 0xc2, 0xa6, 0x5f, 0xb1, 0xbc
            ],
            255
        )
    );
}

#[test]
fn channel_record_addresses() {
    assert_eq!(
        channel_address(&program(), &creator(), 9),
        found(
            [
                0xa8, 0x90, 0xee, 0x79, 0x71, 0x5b, 0x55, 0x5a, 0x95, 0x21, 0x18, 0xca, 0x2a,
                0xce, 0xd9, 0xef, 0x43, 0x9b, 0xf3, 0x93, 0x90, 0x86, 0x98, 0x80, 0x7c, 0x7b,
                0xe1, 0x39, 0x4d, 0x20, 0x03, 0x82
            ],
            255
        )
    );
    assert_eq!(
        member_address(&program(), &channel(), &creator()),
        found(
            [
                0x87, 0xdc, 0x0e, 0xfc, 0x6b, 0x02, 0x81, 0x4b, 0x4e, 0x3f, 0x65, 0xe5, 0xd7,
                0x6c, 0xa7, 0x6c, 0x5c, 0xff, 0x7a, 0x77, 0x1a, 0xd7, 0x46, 0xa0, 0x81, 0xda,
                0xbc, 0xe2, 0x36, 0x3e, 0x82, 0xa1
            ],
            254
        )
    );
    assert_eq!(
        stake_address(&program(), &channel(), &creator()),
        found(
            [
                0x35, 0xd2, 0xa1, 0x4c, 0xec, 0x3f, 0xdf, 0xa6, 0x78, 0x7a, 0x89, 0xf2, 0x61,
                0xe1, 0x92, 0xde, 0x8b, 0x8e, 0x18, 0x1c, 0xc4, 0x53, 0x4e, 0xe6, 0xcb, 0xf7,
                0x9c, 0x0b, 0x8e, 0x09, 0x56, 0x66
            ],
            255
        )
    );
}

#[test]
fn vault_and_vote_record_addresses() {
    assert_eq!(
        vault_address(&program(), &channel()),
        found(
            [
                0xc4, 0xf5, 0x0d, 0x73, 0x90, 0x7a, 0x4b, 0xdd, 0x22, 0x93, 0xf6, 0x78, 0xed,
                0x36, 0x1f, 0xde, 0xd6, 0x48, 0x3d, 0x20, 0x10, 0x98, 0x27, 0x91, 0x12, 0xce,
                0xd6, 0xb4, 0x19, 0xd4, 0x76, 0x5d
            ],
            253
        )
    );
    assert_eq!(
        vault_authority_address(&program(), &channel(), &creator()),
        found(
            [
                0xd5, 0xe3, 0xce, 0x42, 0x41, 0x1c, 0xa3, 0x08, 0xe4, 0x92, 0x9b, 0xb8, 0x00,
                0x6c, 0x92, 0x44, 0xce, 0x8e, 0xf5, 0x07, 0x1d, 0x58, 0x0e, 0xbf, 0x24, 0xfc,
                0xd2, 0x13, 0x90, 0xe5, 0x83, 0xf8
            ],
            255
        )
    );
    assert_eq!(
        vote_record_address(&program(), &channel(), &creator()),
        found(
            [
                0xc4, 0x02, 0xff, 0xa5, 0x54, 0x3e, 0x04, 0x8a, 0x57, 0xcc, 0x81, 0x64, 0xce,
                0xe4, 0x40, 0x3d, 0x54, 0x64, 0x70, 0xe1, 0xb6, 0x84, 0x5d, 0xa1, 0x32, 0x0e,
                0xab, 0x3d, 0x09, 0xf0, 0xd2, 0x22
            ],
            251
        )
    );
}

#[test]
fn the_same_seeds_give_the_same_address_and_a_new_nonce_another() {
    let mut seen = Vec::new();
    for nonce in 0..50u64 {
        let first = coinflip_game_address(&program(), &channel(), &creator(), nonce).unwrap();
        let again = coinflip_game_address(&program(), &channel(), &creator(), nonce).unwrap();
        assert_eq!(first, again);
        assert!(!seen.contains(&first.0));
        seen.push(first.0);
    }
    // Another kind of game, another creator, another channel, another
    // program: each gives another address.
    let base = coinflip_game_address(&program(), &channel(), &creator(), 0).unwrap().0;
    assert_ne!(tictactoe_game_address(&program(), &channel(), &creator(), 0).unwrap().0, base);
    assert_ne!(coinflip_game_address(&program(), &channel(), &channel(), 0).unwrap().0, base);
    assert_ne!(coinflip_game_address(&program(), &creator(), &creator(), 0).unwrap().0, base);
    assert_ne!(coinflip_game_address(&creator(), &channel(), &creator(), 0).unwrap().0, base);
}
