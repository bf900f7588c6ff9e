//! Where a record lives. The address of every record is derived from the
//! program that owns it and from seeds that name the record: a tag for the
//! kind of record, then the addresses and numbers that tell one record of
//! that kind from another. The same seeds always give the same address, and
//! a game's nonce lets the same creator open many games in one channel.

use vstd::prelude::*;
use vstd::bytes::{lemma_auto_spec_u64_to_from_le_bytes, spec_u64_to_le_bytes, u64_to_le_bytes};
use crate::address::Address;

verus! {

/// The tag of a coinflip game: the text `coinflip`.
pub const COINFLIP_SEED: [u8; 8] = [0x63, 0x6f, 0x69, 0x6e, 0x66, 0x6c, 0x69, 0x70];

/// The tag of a tic-tac-toe game: the text `tictactoe`.
pub const TICTACTOE_SEED: [u8; 9] = [0x74, 0x69, 0x63, 0x74, 0x61, 0x63, 0x74, 0x6f, 0x65];

/// The tag of a channel: the text `channel`.
pub const CHANNEL_SEED: [u8; 7] = [0x63, 0x68, 0x61, 0x6e, 0x6e, 0x65, 0x6c];

/// The tag of a member record: the text `member`.
pub const MEMBER_SEED: [u8; 6] = [0x6d, 0x65, 0x6d, 0x62, 0x65, 0x72];

/// The tag of a vault: the text `vault`.
pub const VAULT_SEED: [u8; 5] = [0x76, 0x61, 0x75, 0x6c, 0x74];

/// The tag of the address that signs for a vault: the text `vault_auth`.
pub const VAULT_AUTH_SEED: [u8; 10] = [0x76, 0x61, 0x75, 0x6c, 0x74, 0x5f, 0x61, 0x75, 0x74, 0x68];

/// The tag of a stake record: the text `stake`.
pub const STAKE_SEED: [u8; 5] = [0x73, 0x74, 0x61, 0x6b, 0x65];

/// The tag of a poll: the text `poll`.
pub const POLL_SEED: [u8; 4] = [0x70, 0x6f, 0x6c, 0x6c];

/// The tag of a vote record: the text `vote_record`.
pub const VOTE_RECORD_SEED: [u8; 11] = [
    0x76,
    0x6f,
    0x74,
    0x65,
    0x5f,
    0x72,
    0x65,
    0x63,
    0x6f,
    0x72,
    0x64,
];

/// The address that the ledger derives for a program from seeds, with the
/// bump seed it found; nothing where it finds none.
pub uninterp spec fn program_address(seeds: Seq<Seq<u8>>, program_id: Seq<u8>) -> Option<
    (Seq<u8>, u8),
>;

/// The seeds as byte strings, in order.
pub open spec fn views(seeds: Seq<Vec<u8>>) -> Seq<Seq<u8>> {
    Seq::new(seeds.len(), |i: int| seeds[i]@)
}

/// Calls `solana_program::pubkey::Pubkey::try_find_program_address` with the
/// seeds as byte slices and the program's address made by
/// `Pubkey::new_from_array`, and takes the bytes of the address found with
/// `Pubkey::to_bytes`. Trusted: the result is a function of the seeds and
/// the program's address alone.
#[verifier::external_body]
fn find_program_address(seeds: &Vec<Vec<u8>>, program_id: &Address) -> (r: Option<(Address, u8)>)
    ensures
        match r {
            Some((address, bump)) => program_address(views(seeds@), program_id.bytes@) == Some(
                (address.bytes@, bump),
            ),
            None => program_address(views(seeds@), program_id.bytes@) is None,
        },
{
    let slices: Vec<&[u8]> = seeds.iter().map(|seed| seed.as_slice()).collect();
    let program = solana_program::pubkey::Pubkey::new_from_array(program_id.bytes);
    match solana_program::pubkey::Pubkey::try_find_program_address(&slices, &program) {
        Some((key, bump)) => Some((Address { bytes: key.to_bytes() }, bump)),
        None => None,
    }
}

/// The bytes of an array, in order.
pub fn seed_bytes<const N: usize>(bytes: &[u8; N]) -> (seed: Vec<u8>)
    ensures
        seed@ == bytes@,
{
    let mut seed: Vec<u8> = Vec::with_capacity(N);
    let mut i: usize = 0;
    while i < N
        invariant
            i <= N,
            seed@.len() == i,
            forall|j: int| 0 <= j < i ==> seed@[j] == bytes@[j],
        decreases N - i,
    {
        seed.push(bytes[i]);
        i += 1;
    }
    assert(seed@ =~= bytes@);
    seed
}

/// The seeds of a record named by a tag and two addresses.
pub open spec fn pair_seeds(tag: Seq<u8>, first: Address, second: Address) -> Seq<Seq<u8>> {
    seq![tag, first.bytes@, second.bytes@]
}

/// The seeds of a record named by a tag, two addresses and a number: the
/// number is written as its 8 bytes, lowest first.
pub open spec fn numbered_seeds(tag: Seq<u8>, first: Address, second: Address, number: u64) -> Seq<
    Seq<u8>,
> {
    seq![tag, first.bytes@, second.bytes@, spec_u64_to_le_bytes(number)]
}

/// The seeds of a channel: the tag, the owner, and the channel's number as
/// its 8 bytes, lowest first.
pub open spec fn channel_seeds(owner: Address, channel_id: u64) -> Seq<Seq<u8>> {
    seq![CHANNEL_SEED@, owner.bytes@, spec_u64_to_le_bytes(channel_id)]
}

/// Lays out the seeds of a record named by a tag, two addresses and a
/// number.
fn numbered(tag: Vec<u8>, first: &Address, second: &Address, number: u64) -> (seeds: Vec<Vec<u8>>)
    ensures
        views(seeds@) == numbered_seeds(tag@, *first, *second, number),
{
    let mut seeds: Vec<Vec<u8>> = Vec::with_capacity(4);
    seeds.push(tag);
    seeds.push(seed_bytes(&first.bytes));
    seeds.push(seed_bytes(&second.bytes));
    seeds.push(u64_to_le_bytes(number));
    assert(views(seeds@) =~= numbered_seeds(tag@, *first, *second, number));
    seeds
}

/// Lays out the seeds of a record named by a tag and two addresses.
fn paired(tag: Vec<u8>, first: &Address, second: &Address) -> (seeds: Vec<Vec<u8>>)
    ensures
        views(seeds@) == pair_seeds(tag@, *first, *second),
{
    let mut seeds: Vec<Vec<u8>> = Vec::with_capacity(3);
    seeds.push(tag);
    seeds.push(seed_bytes(&first.bytes));
    seeds.push(seed_bytes(&second.bytes));
    assert(views(seeds@) =~= pair_seeds(tag@, *first, *second));
    seeds
}

/// Whether `r` is what the ledger derives for `program_id` from `seeds`:
/// the address and the bump seed, or nothing.
pub open spec fn derived(r: Option<(Address, u8)>, seeds: Seq<Seq<u8>>, program_id: Address)
    -> bool {
    match r {
        Some((address, bump)) => program_address(seeds, program_id.bytes@) == Some(
            (address.bytes@, bump),
        ),
        None => program_address(seeds, program_id.bytes@) is None,
    }
}

/// The address and bump seed of the coinflip game that `creator` opens in
/// `channel` under `nonce`.
pub fn coinflip_game_address(
    program_id: &Address,
    channel: &Address,
    creator: &Address,
    nonce: u64,
) -> (r: Option<(Address, u8)>)
    ensures
        derived(r, numbered_seeds(COINFLIP_SEED@, *channel, *creator, nonce), *program_id),
{
    let seeds = numbered(seed_bytes(&COINFLIP_SEED), channel, creator, nonce);
    find_program_address(&seeds, program_id)
}

/// The address and bump seed of the tic-tac-toe game that `creator` opens
/// in `channel` under `nonce`.
pub fn tictactoe_game_address(
    program_id: &Address,
    channel: &Address,
    creator: &Address,
    nonce: u64,
) -> (r: Option<(Address, u8)>)
    ensures
        derived(r, numbered_seeds(TICTACTOE_SEED@, *channel, *creator, nonce), *program_id),
{
    let seeds = numbered(seed_bytes(&TICTACTOE_SEED), channel, creator, nonce);
    find_program_address(&seeds, program_id)
}

/// The address and bump seed of the poll that `creator` puts to `channel`
/// under `nonce`.
pub fn poll_address(program_id: &Address, channel: &Address, creator: &Address, nonce: u64) -> (r:
    Option<(Address, u8)>)
    ensures
        derived(r, numbered_seeds(POLL_SEED@, *channel, *creator, nonce), *program_id),
{
    let seeds = numbered(seed_bytes(&POLL_SEED), channel, creator, nonce);
    find_program_address(&seeds, program_id)
}

/// The address and bump seed of the record that `voter` has voted on
/// `poll`.
pub fn vote_record_address(program_id: &Address, poll: &Address, voter: &Address) -> (r: Option<
    (Address, u8),
>)
    ensures
        derived(r, pair_seeds(VOTE_RECORD_SEED@, *poll, *voter), *program_id),
{
    let seeds = paired(seed_bytes(&VOTE_RECORD_SEED), poll, voter);
    find_program_address(&seeds, program_id)
}

/// The address and bump seed of the channel that `owner` creates under
/// `channel_id`.
pub fn channel_address(program_id: &Address, owner: &Address, channel_id: u64) -> (r: Option<
    (Address, u8),
>)
    ensures
        derived(r, channel_seeds(*owner, channel_id), *program_id),
{
    let mut seeds: Vec<Vec<u8>> = Vec::with_capacity(3);
    seeds.push(seed_bytes(&CHANNEL_SEED));
    seeds.push(seed_bytes(&owner.bytes));
    seeds.push(u64_to_le_bytes(channel_id));
    assert(views(seeds@) =~= channel_seeds(*owner, channel_id));
    find_program_address(&seeds, program_id)
}

/// The address and bump seed of the member record of `wallet` in
/// `channel`.
pub fn member_address(program_id: &Address, channel: &Address, wallet: &Address) -> (r: Option<
    (Address, u8),
>)
    ensures
        derived(r, pair_seeds(MEMBER_SEED@, *channel, *wallet), *program_id),
{
    let seeds = paired(seed_bytes(&MEMBER_SEED), channel, wallet);
    find_program_address(&seeds, program_id)
}

/// The address and bump seed of the stake record of `wallet` in `channel`.
pub fn stake_address(program_id: &Address, channel: &Address, wallet: &Address) -> (r: Option<
    (Address, u8),
>)
    ensures
        derived(r, pair_seeds(STAKE_SEED@, *channel, *wallet), *program_id),
{
    let seeds = paired(seed_bytes(&STAKE_SEED), channel, wallet);
    find_program_address(&seeds, program_id)
}

/// The address and bump seed of the vault of `channel`.
pub fn vault_address(program_id: &Address, channel: &Address) -> (r: Option<(Address, u8)>)
    ensures
        derived(r, seq![VAULT_SEED@, channel.bytes@], *program_id),
{
    let mut seeds: Vec<Vec<u8>> = Vec::with_capacity(2);
    seeds.push(seed_bytes(&VAULT_SEED));
    seeds.push(seed_bytes(&channel.bytes));
    assert(views(seeds@) =~= seq![VAULT_SEED@, channel.bytes@]);
    find_program_address(&seeds, program_id)
}

/// The address and bump seed of the address that signs for the vault of
/// `channel`, which holds the token `mint`.
pub fn vault_authority_address(program_id: &Address, channel: &Address, mint: &Address) -> (r:
    Option<(Address, u8)>)
    ensures
        derived(r, pair_seeds(VAULT_AUTH_SEED@, *channel, *mint), *program_id),
{
    let seeds = paired(seed_bytes(&VAULT_AUTH_SEED), channel, mint);
    find_program_address(&seeds, program_id)
}

/// Two games or polls of one kind have the same seeds only if they are in
/// the same channel, by the same creator, under the same nonce: a new nonce
/// names a new record.
pub proof fn lemma_seeds_tell_records_apart(
    tag: Seq<u8>,
    channel_1: Address,
    creator_1: Address,
    nonce_1: u64,
    channel_2: Address,
    creator_2: Address,
    nonce_2: u64,
)
    requires
        numbered_seeds(tag, channel_1, creator_1, nonce_1) == numbered_seeds(
            tag,
            channel_2,
            creator_2,
            nonce_2,
        ),
    ensures
        channel_1 == channel_2,
        creator_1 == creator_2,
        nonce_1 == nonce_2,
{
    let s1 = numbered_seeds(tag, channel_1, creator_1, nonce_1);
    let s2 = numbered_seeds(tag, channel_2, creator_2, nonce_2);
    assert(s1[1] == s2[1]);
    assert(s1[2] == s2[2]);
    assert(s1[3] == s2[3]);
    assert(channel_1.bytes =~= channel_2.bytes);
    assert(creator_1.bytes =~= creator_2.bytes);
    lemma_auto_spec_u64_to_from_le_bytes();
}

} // verus!
