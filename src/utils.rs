use vstd::prelude::*;

use crate::constants::REVEAL_TIME;
use crate::error::GameError;
use crate::pubkey::Pubkey;
use crate::state::bytes::{le_bytes, push_le};

verus! {

/// The SHA-256 digest of `data`.
pub uninterp spec fn sha256_of(data: Seq<u8>) -> Seq<u8>;

/// The program-derived address, with its bump seed, that the runtime finds for
/// `seeds` under `program_id`; `None` where no bump seed gives one.
pub uninterp spec fn program_address_of(seeds: Seq<Seq<u8>>, program_id: Seq<u8>) -> Option<
    (Seq<u8>, u8),
>;

/// Relies on `solana_program::hash::hashv`, given `data` as its one part: the
/// SHA-256 digest, which depends on the bytes alone.
#[verifier::external_body]
fn sha256(data: &[u8]) -> (r: [u8; 32])
    ensures
        r@ == sha256_of(data@),
{
    solana_program::hash::hashv(&[data]).to_bytes()
}

/// Relies on `solana_program::pubkey::Pubkey::try_find_program_address` with
/// two seeds of 32 bytes each (within its limits of 16 seeds of at most 32
/// bytes): the address and bump seed it finds, or `None`; the result depends on
/// the seeds and the program id alone.
#[verifier::external_body]
fn try_find_program_address(seed_a: &[u8; 32], seed_b: &[u8; 32], program_id: &Pubkey) -> (r:
    Option<(Pubkey, u8)>)
    ensures
        r is Some <==> program_address_of(seq![seed_a@, seed_b@], program_id@) is Some,
        r matches Some((key, bump)) ==> program_address_of(seq![seed_a@, seed_b@], program_id@)
            == Some((key@, bump)),
{
    let seeds: [&[u8]; 2] = [seed_a, seed_b];
    let id = solana_program::pubkey::Pubkey::new_from_array(program_id.bytes);
    match solana_program::pubkey::Pubkey::try_find_program_address(&seeds, &id) {
        Some((key, bump)) => Some((Pubkey::new_from_array(key.to_bytes()), bump)),
        None => None,
    }
}

/// The ASCII bytes of `game`, the domain tag of record addresses.
pub open spec fn game_tag() -> Seq<u8> {
    seq![103u8, 97, 109, 101]
}

/// The commitment to an answer `x` and a nonce `random`: the digest of the
/// digest of `x` (two bytes, little-endian) followed by the digest of `random`.
pub open spec fn commit_of(x: u16, random: Seq<u8>) -> Seq<u8> {
    sha256_of(sha256_of(le_bytes(x as nat, 2)) + sha256_of(random))
}

/// The record address, with its bump seed, that belongs to `commit`: derived
/// from the commitment and the digest of the domain tag.
pub open spec fn game_address(commit: Seq<u8>, program_id: Seq<u8>) -> Option<(Seq<u8>, u8)> {
    program_address_of(seq![commit, sha256_of(game_tag())], program_id)
}

/// Whether a game joined at `record_time` is still inside its reveal window at
/// `now`.
pub open spec fn within_window(record_time: i64, now: i64) -> bool {
    record_time + REVEAL_TIME >= now
}

/// The address of the record committed to by `hashed_value`, and the seeds
/// that sign for it: the commitment, the digest of the domain tag, and the
/// bump seed.
pub fn get_seeds_and_key(hashed_value: &[u8; 32], program_id: &Pubkey) -> (r: Result<
    (Pubkey, Vec<u8>),
    GameError,
>)
    ensures
        match game_address(hashed_value@, program_id@) {
            Some((key, bump)) => r matches Ok((k, seeds)) && k@ == key && seeds@ == hashed_value@
                + sha256_of(game_tag()) + seq![bump],
            None => r == Err::<(Pubkey, Vec<u8>), GameError>(GameError::InvalidAddress),
        },
{
    let tag: [u8; 4] = [103u8, 97, 109, 101];
    proof {
        assert(tag@ =~= game_tag());
    }
    let tag_hash = sha256(&tag);
    match try_find_program_address(hashed_value, &tag_hash, program_id) {
        Some((key, bump)) => {
            let mut seeds: Vec<u8> = Vec::new();
            let mut i: usize = 0;
            while i < 32
                invariant
                    i <= 32,
                    seeds@ == hashed_value@.subrange(0, i as int),
                decreases 32 - i,
            {
                seeds.push(hashed_value[i]);
                assert(seeds@ =~= hashed_value@.subrange(0, i + 1));
                i = i + 1;
            }
            let mut j: usize = 0;
            while j < 32
                invariant
                    j <= 32,
                    seeds@ == hashed_value@ + tag_hash@.subrange(0, j as int),
                decreases 32 - j,
            {
                seeds.push(tag_hash[j]);
                assert(seeds@ =~= hashed_value@ + tag_hash@.subrange(0, j + 1));
                j = j + 1;
            }
            seeds.push(bump);
            assert(seeds@ =~= hashed_value@ + sha256_of(game_tag()) + seq![bump]);
            Ok((key, seeds))
        },
        None => Err(GameError::InvalidAddress),
    }
}

/// The commitment to the answer `x` and the nonce `random`.
pub fn get_splicing_hash(x: u16, random: [u8; 6]) -> (r: [u8; 32])
    ensures
        r@ == commit_of(x, random@),
{
    let mut x_bytes: Vec<u8> = Vec::new();
    push_le(&mut x_bytes, x as u64, 2);
    proof {
        assert(x_bytes@ =~= le_bytes(x as nat, 2));
    }
    let x_hash = sha256(x_bytes.as_slice());
    let random_hash = sha256(&random);
    let mut combined: Vec<u8> = Vec::new();
    let mut i: usize = 0;
    while i < 32
        invariant
            i <= 32,
            combined@ == x_hash@.subrange(0, i as int),
        decreases 32 - i,
    {
        combined.push(x_hash[i]);
        assert(combined@ =~= x_hash@.subrange(0, i + 1));
        i = i + 1;
    }
    let mut j: usize = 0;
    while j < 32
        invariant
            j <= 32,
            combined@ == x_hash@ + random_hash@.subrange(0, j as int),
        decreases 32 - j,
    {
        combined.push(random_hash[j]);
        assert(combined@ =~= x_hash@ + random_hash@.subrange(0, j + 1));
        j = j + 1;
    }
    assert(combined@ =~= x_hash@ + random_hash@);
    sha256(combined.as_slice())
}

/// Whether a game joined at `record_time` is still inside its reveal window at
/// `now`; the window's end itself is inside.
pub fn if_reveal_time(record_time: i64, now: i64) -> (r: bool)
    ensures
        r == within_window(record_time, now),
{
    (record_time as i128) + (REVEAL_TIME as i128) >= now as i128
}

/// `percent` percent of `value`, rounded down; the product saturates at
/// `u64::MAX` before the division.
pub fn percent_of(value: u64, percent: u64) -> (r: u64)
    ensures
        r == (if value * percent <= u64::MAX { value * percent } else { u64::MAX as int }) / 100,
{
    let p: u64 = match value.checked_mul(percent) {
        Some(p) => p,
        None => u64::MAX,
    };
    p / 100
}

/// The record address is a function of the answer and nonce alone: the same
/// answer and nonce always lead to the same address.
pub proof fn lemma_address_deterministic(
    x1: u16,
    random1: Seq<u8>,
    x2: u16,
    random2: Seq<u8>,
    program_id: Seq<u8>,
)
    requires
        x1 == x2,
        random1 == random2,
    ensures
        game_address(commit_of(x1, random1), program_id) == game_address(
            commit_of(x2, random2),
            program_id,
        ),
{
}

} // verus!
