use vstd::prelude::*;

use crate::constants::RECORD_LEN;
use crate::error::GameError;
use crate::pubkey::Pubkey;
use crate::state::bytes::{
    i64_bits, i64_from_u64_bits, i64_to_bits, le_bytes, lemma_i64_bits, lemma_le_bytes_injective,
    lemma_le_bytes_len, lemma_le_bytes_of_value, lemma_pow256_values, push_le, read_le,
};

verus! {

/// Stake tier of a game; each tier fixes the amount a player stakes.
#[derive(Clone, Copy, Debug, PartialEq, Eq, Structural)]
pub enum GameLevel {
    S,
    A,
    B,
    C,
    D,
}

/// The stake of each tier, in the smallest currency unit.
pub open spec fn stake_of(level: GameLevel) -> u64 {
    match level {
        GameLevel::S => 10_000_000_000,
        GameLevel::A => 1_000_000_000,
        GameLevel::B => 100_000_000,
        GameLevel::C => 10_000_000,
        GameLevel::D => 1_000_000,
    }
}

/// The one-byte code of each tier.
pub open spec fn level_code(level: GameLevel) -> u8 {
    match level {
        GameLevel::S => 0,
        GameLevel::A => 1,
        GameLevel::B => 2,
        GameLevel::C => 3,
        GameLevel::D => 4,
    }
}

/// The tier that a one-byte code names, if any.
pub open spec fn level_from_code(code: u8) -> Option<GameLevel> {
    if code == 0 {
        Some(GameLevel::S)
    } else if code == 1 {
        Some(GameLevel::A)
    } else if code == 2 {
        Some(GameLevel::B)
    } else if code == 3 {
        Some(GameLevel::C)
    } else if code == 4 {
        Some(GameLevel::D)
    } else {
        None
    }
}

impl GameLevel {
    /// The stake of this tier.
    pub fn get_bet(&self) -> (r: u64)
        ensures
            r == stake_of(*self),
    {
        match self {
            GameLevel::D => 1_000_000,
            GameLevel::C => 10_000_000,
            GameLevel::B => 100_000_000,
            GameLevel::A => 1_000_000_000,
            GameLevel::S => 10_000_000_000,
        }
    }

    /// The tier named by `value`; codes above 4 are refused.
    pub fn from_u8(value: &u8) -> (r: Result<GameLevel, GameError>)
        ensures
            match level_from_code(*value) {
                Some(level) => r == Ok::<GameLevel, GameError>(level),
                None => r == Err::<GameLevel, GameError>(GameError::InvalidParameters),
            },
    {
        match *value {
            0 => Ok(GameLevel::S),
            1 => Ok(GameLevel::A),
            2 => Ok(GameLevel::B),
            3 => Ok(GameLevel::C),
            4 => Ok(GameLevel::D),
            _ => Err(GameError::InvalidParameters),
        }
    }

    /// The one-byte code of this tier.
    pub fn to_u8(&self) -> (r: u8)
        ensures
            r == level_code(*self),
            level_from_code(r) == Some(*self),
    {
        match self {
            GameLevel::S => 0,
            GameLevel::A => 1,
            GameLevel::B => 2,
            GameLevel::C => 3,
            GameLevel::D => 4,
        }
    }
}

/// The persistent record of one game.
///
/// `player` holds the program's own address until a player joins, and
/// `firing_point` is 0 until then; `answer` is 0 until the promoter reveals.
#[derive(Clone, Copy, Debug, PartialEq, Eq)]
pub struct GameRecord {
    /// The game's creator, who escrows the prefund and supplies the commitment.
    pub promoter: Pubkey,
    /// The player who joined.
    pub player: Pubkey,
    /// The player's guess.
    pub firing_point: u16,
    /// The largest valid guess.
    pub max: u16,
    /// The payout multiplier, in hundredths.
    pub odds_x100: u32,
    /// The stake tier.
    pub level: GameLevel,
    /// When the player joined.
    pub shot_time: i64,
    /// The revealed answer.
    pub answer: u16,
    /// The revealed nonce.
    pub random_string: [u8; 6],
}

/// The byte layout of a record: fixed-width fields in declaration order,
/// integers little-endian, the level as its one-byte code.
pub open spec fn encode(r: GameRecord) -> Seq<u8> {
    r.promoter@ + r.player@ + le_bytes(r.firing_point as nat, 2) + le_bytes(r.max as nat, 2)
        + le_bytes(r.odds_x100 as nat, 4) + seq![level_code(r.level)] + le_bytes(
        i64_bits(r.shot_time),
        8,
    ) + le_bytes(r.answer as nat, 2) + r.random_string@
}

/// Whether the bytes hold a record: long enough, with a known level code.
pub open spec fn decodable(s: Seq<u8>) -> bool {
    s.len() >= RECORD_LEN && level_from_code(s[72]) is Some
}

/// The record stored at the front of `s`, if any.
pub open spec fn decode(s: Seq<u8>) -> Option<GameRecord> {
    if decodable(s) {
        Some(choose|r: GameRecord| encode(r) == s.subrange(0, RECORD_LEN as int))
    } else {
        None
    }
}

/// The nonce of a record not yet revealed: six ASCII zeros.
pub open spec fn unrevealed_nonce() -> Seq<u8> {
    seq![48u8, 48, 48, 48, 48, 48]
}

/// Whether `r` is the record a promoter opens: the given parameters, and every
/// other field unjoined and unrevealed, with `program_id` standing for "no
/// player".
pub open spec fn is_initial_record(
    r: GameRecord,
    promoter: Pubkey,
    max: u16,
    odds: u32,
    level: GameLevel,
    program_id: Pubkey,
) -> bool {
    &&& r.promoter == promoter
    &&& r.player == program_id
    &&& r.firing_point == 0
    &&& r.max == max
    &&& r.odds_x100 == odds
    &&& r.level == level
    &&& r.shot_time == 0
    &&& r.answer == 0
    &&& r.random_string@ == unrevealed_nonce()
}

/// Each field's bytes stand at a fixed offset of the encoding.
pub proof fn lemma_encode_fields(r: GameRecord)
    ensures
        encode(r).len() == RECORD_LEN,
        encode(r).subrange(0, 32) == r.promoter@,
        encode(r).subrange(32, 64) == r.player@,
        encode(r).subrange(64, 66) == le_bytes(r.firing_point as nat, 2),
        encode(r).subrange(66, 68) == le_bytes(r.max as nat, 2),
        encode(r).subrange(68, 72) == le_bytes(r.odds_x100 as nat, 4),
        encode(r)[72] == level_code(r.level),
        encode(r).subrange(73, 81) == le_bytes(i64_bits(r.shot_time), 8),
        encode(r).subrange(81, 83) == le_bytes(r.answer as nat, 2),
        encode(r).subrange(83, 89) == r.random_string@,
{
    lemma_le_bytes_len(r.firing_point as nat, 2);
    lemma_le_bytes_len(r.max as nat, 2);
    lemma_le_bytes_len(r.odds_x100 as nat, 4);
    lemma_le_bytes_len(i64_bits(r.shot_time), 8);
    lemma_le_bytes_len(r.answer as nat, 2);
    let e = encode(r);
    assert(e.subrange(0, 32) =~= r.promoter@);
    assert(e.subrange(32, 64) =~= r.player@);
    assert(e.subrange(64, 66) =~= le_bytes(r.firing_point as nat, 2));
    assert(e.subrange(66, 68) =~= le_bytes(r.max as nat, 2));
    assert(e.subrange(68, 72) =~= le_bytes(r.odds_x100 as nat, 4));
    assert(e.subrange(73, 81) =~= le_bytes(i64_bits(r.shot_time), 8));
    assert(e.subrange(81, 83) =~= le_bytes(r.answer as nat, 2));
    assert(e.subrange(83, 89) =~= r.random_string@);
}

/// Two records with the same encoding are the same record.
pub proof fn lemma_encode_injective(a: GameRecord, b: GameRecord)
    requires
        encode(a) == encode(b),
    ensures
        a == b,
{
    lemma_encode_fields(a);
    lemma_encode_fields(b);
    lemma_pow256_values();
    lemma_i64_bits(a.shot_time);
    lemma_i64_bits(b.shot_time);
    lemma_le_bytes_injective(a.firing_point as nat, b.firing_point as nat, 2);
    lemma_le_bytes_injective(a.max as nat, b.max as nat, 2);
    lemma_le_bytes_injective(a.odds_x100 as nat, b.odds_x100 as nat, 4);
    lemma_le_bytes_injective(i64_bits(a.shot_time), i64_bits(b.shot_time), 8);
    lemma_le_bytes_injective(a.answer as nat, b.answer as nat, 2);
    assert(a.promoter.bytes == b.promoter.bytes);
    assert(a.player.bytes == b.player.bytes);
    assert(a.random_string == b.random_string);
    assert(level_from_code(level_code(a.level)) == Some(a.level));
    assert(level_from_code(level_code(b.level)) == Some(b.level));
}

/// Encoding a record and decoding the bytes gives the same record back, for
/// every field value.
pub proof fn lemma_record_round_trip(r: GameRecord)
    ensures
        decode(encode(r)) == Some(r),
{
    lemma_encode_fields(r);
    let e = encode(r);
    assert(level_from_code(level_code(r.level)) == Some(r.level));
    assert(e.subrange(0, RECORD_LEN as int) =~= e);
    let d = choose|d: GameRecord| encode(d) == e.subrange(0, RECORD_LEN as int);
    lemma_encode_injective(d, r);
}

/// Copies `src[start..start + 32]` into an array.
fn read_array32(src: &[u8], start: usize) -> (r: [u8; 32])
    requires
        start + 32 <= src@.len(),
    ensures
        r@ == src@.subrange(start as int, start + 32),
{
    let len: usize = src.len();
    let mut a = [0u8; 32];
    let mut i: usize = 0;
    while i < 32
        invariant
            i <= 32,
            start + 32 <= src@.len(),
            len == src@.len(),
            a@.len() == 32,
            forall|j: int| 0 <= j < i ==> a@[j] == src@[start + j],
        decreases 32 - i,
    {
        a[i] = src[start + i];
        i = i + 1;
    }
    assert(a@ =~= src@.subrange(start as int, start + 32));
    a
}

/// Copies `src[start..start + 6]` into an array.
fn read_array6(src: &[u8], start: usize) -> (r: [u8; 6])
    requires
        start + 6 <= src@.len(),
    ensures
        r@ == src@.subrange(start as int, start + 6),
{
    let len: usize = src.len();
    let mut a = [0u8; 6];
    let mut i: usize = 0;
    while i < 6
        invariant
            i <= 6,
            start + 6 <= src@.len(),
            len == src@.len(),
            a@.len() == 6,
            forall|j: int| 0 <= j < i ==> a@[j] == src@[start + j],
        decreases 6 - i,
    {
        a[i] = src[start + i];
        i = i + 1;
    }
    assert(a@ =~= src@.subrange(start as int, start + 6));
    a
}

/// Appends all bytes of `a` to `out`.
fn push_all(out: &mut Vec<u8>, a: &[u8])
    ensures
        final(out)@ == old(out)@ + a@,
{
    let ghost start = old(out)@;
    let n: usize = a.len();
    let mut i: usize = 0;
    while i < n
        invariant
            i <= n,
            n == a@.len(),
            out@ == start + a@.subrange(0, i as int),
        decreases n - i,
    {
        out.push(a[i]);
        assert(out@ =~= start + a@.subrange(0, i + 1));
        i = i + 1;
    }
    assert(a@.subrange(0, n as int) =~= a@);
}

impl GameRecord {
    /// A freshly opened record of tier code `level`.
    pub fn new(promoter: Pubkey, max: u16, odds: u32, level: u8, program_id: Pubkey) -> (r: Self)
        requires
            level_from_code(level) is Some,
        ensures
            is_initial_record(r, promoter, max, odds, level_from_code(level).unwrap(), program_id),
    {
        let game_level = match GameLevel::from_u8(&level) {
            Ok(l) => l,
            Err(_) => GameLevel::S,
        };
        let r = GameRecord {
            promoter,
            player: program_id,
            firing_point: 0,
            max,
            odds_x100: odds,
            level: game_level,
            shot_time: 0,
            answer: 0,
            random_string: [48u8; 6],
        };
        assert(r.random_string@ =~= unrevealed_nonce());
        r
    }

    /// The record's bytes.
    pub fn to_vec(&self) -> (r: Vec<u8>)
        ensures
            r@ == encode(*self),
    {
        let mut out: Vec<u8> = Vec::new();
        push_all(&mut out, &self.promoter.bytes);
        push_all(&mut out, &self.player.bytes);
        push_le(&mut out, self.firing_point as u64, 2);
        push_le(&mut out, self.max as u64, 2);
        push_le(&mut out, self.odds_x100 as u64, 4);
        out.push(self.level.to_u8());
        push_le(&mut out, i64_to_bits(self.shot_time), 8);
        push_le(&mut out, self.answer as u64, 2);
        push_all(&mut out, &self.random_string);
        assert(out@ =~= encode(*self));
        out
    }

    /// Writes the record over the front of `dst`; a `dst` shorter than a
    /// record is left as it is.
    pub fn pack_into_slice(&self, dst: &mut [u8])
        ensures
            old(dst)@.len() < RECORD_LEN ==> final(dst)@ == old(dst)@,
            old(dst)@.len() >= RECORD_LEN ==> final(dst)@ == encode(*self) + old(dst)@.subrange(
                RECORD_LEN as int,
                old(dst)@.len() as int,
            ),
    {
        let len: usize = dst.len();
        if len < RECORD_LEN {
            return;
        }
        let bytes = self.to_vec();
        proof {
            lemma_encode_fields(*self);
        }
        let ghost start = dst@;
        let mut i: usize = 0;
        while i < RECORD_LEN
            invariant
                i <= RECORD_LEN <= len,
                dst@.len() == len,
                start.len() == len,
                bytes@.len() == RECORD_LEN,
                forall|j: int| 0 <= j < i ==> dst@[j] == bytes@[j],
                forall|j: int| i <= j < len ==> dst@[j] == start[j],
            decreases RECORD_LEN - i,
        {
            dst[i] = bytes[i];
            i = i + 1;
        }
        assert(dst@ =~= encode(*self) + start.subrange(RECORD_LEN as int, len as int));
    }

    /// Reads the record at the front of `src`.
    pub fn unpack_from_slice(src: &[u8]) -> (r: Result<Self, GameError>)
        ensures
            match decode(src@) {
                Some(d) => r == Ok::<GameRecord, GameError>(d),
                None => r == Err::<GameRecord, GameError>(GameError::InvalidAccountData),
            },
    {
        let len: usize = src.len();
        if len < RECORD_LEN {
            return Err(GameError::InvalidAccountData);
        }
        let promoter = Pubkey::new_from_array(read_array32(src, 0));
        let player = Pubkey::new_from_array(read_array32(src, 32));
        let firing_point = read_le(src, 64, 2);
        let max = read_le(src, 66, 2);
        let odds_x100 = read_le(src, 68, 4);
        let level = match GameLevel::from_u8(&src[72]) {
            Ok(l) => l,
            Err(_) => {
                return Err(GameError::InvalidAccountData);
            },
        };
        let shot_time = read_le(src, 73, 8);
        let answer = read_le(src, 81, 2);
        let random_string = read_array6(src, 83);
        proof {
            lemma_pow256_values();
            lemma_le_bytes_of_value(src@.subrange(64, 66));
            lemma_le_bytes_of_value(src@.subrange(66, 68));
            lemma_le_bytes_of_value(src@.subrange(68, 72));
            lemma_le_bytes_of_value(src@.subrange(73, 81));
            lemma_le_bytes_of_value(src@.subrange(81, 83));
        }
        let rec = GameRecord {
            promoter,
            player,
            firing_point: firing_point as u16,
            max: max as u16,
            odds_x100: odds_x100 as u32,
            level,
            shot_time: i64_from_u64_bits(shot_time),
            answer: answer as u16,
            random_string,
        };
        proof {
            lemma_encode_fields(rec);
            let s = src@.subrange(0, RECORD_LEN as int);
            assert(i64_bits(rec.shot_time) == shot_time);
            assert(encode(rec) =~= s) by {
                assert forall|j: int| 0 <= j < RECORD_LEN implies encode(rec)[j] == s[j] by {
                    if j < 32 {
                        assert(encode(rec)[j] == encode(rec).subrange(0, 32)[j]);
                    } else if j < 64 {
                        assert(encode(rec)[j] == encode(rec).subrange(32, 64)[j - 32]);
                    } else if j < 66 {
                        assert(encode(rec)[j] == encode(rec).subrange(64, 66)[j - 64]);
                    } else if j < 68 {
                        assert(encode(rec)[j] == encode(rec).subrange(66, 68)[j - 66]);
                    } else if j < 72 {
                        assert(encode(rec)[j] == encode(rec).subrange(68, 72)[j - 68]);
                    } else if j == 72 {
                    } else if j < 81 {
                        assert(encode(rec)[j] == encode(rec).subrange(73, 81)[j - 73]);
                    } else if j < 83 {
                        assert(encode(rec)[j] == encode(rec).subrange(81, 83)[j - 81]);
                    } else {
                        assert(encode(rec)[j] == encode(rec).subrange(83, 89)[j - 83]);
                    }
                }
            }
            let d = choose|d: GameRecord| encode(d) == s;
            lemma_encode_injective(d, rec);
        }
        Ok(rec)
    }
}

} // verus!

verus! {

/// Whether nobody has joined the game: no guess, and the "no player" address.
pub open spec fn is_unjoined(r: GameRecord, program_id: Pubkey) -> bool {
    r.firing_point == 0 && r.player@ == program_id@
}

/// Whether a player has joined the game: a guess, and a real player address.
pub open spec fn is_joined(r: GameRecord, program_id: Pubkey) -> bool {
    r.firing_point != 0 && r.player@ != program_id@
}

} // verus!
