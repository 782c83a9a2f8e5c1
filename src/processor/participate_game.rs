use vstd::prelude::*;

use crate::constants::system_id;
use crate::error::GameError;
use crate::processor::{is_system_id, AccountRef};
use crate::pubkey::Pubkey;
use crate::state::game::{decode, encode, is_unjoined, stake_of, GameRecord};

verus! {

/// The payload of Participate: the player's guess.
#[derive(Clone, Copy, Debug, PartialEq, Eq)]
pub struct Params {
    pub point: u16,
}

/// The accounts of the Participate transition, in order.
#[derive(Clone, Copy, Debug, PartialEq, Eq)]
pub struct Accounts {
    /// The joining player; must sign.
    pub player: AccountRef,
    pub game_recorder: AccountRef,
    pub system_program: AccountRef,
    /// The game's promoter, who receives the stake.
    pub promoter: AccountRef,
}

impl Accounts {
    /// The four accounts, in order, from the front of `accounts`.
    pub fn parse(accounts: &[AccountRef]) -> (r: Result<Accounts, GameError>)
        ensures
            accounts@.len() < 4 ==> r == Err::<Accounts, GameError>(
                GameError::NotEnoughAccountKeys,
            ),
            accounts@.len() >= 4 ==> r == Ok::<Accounts, GameError>(
                Accounts {
                    player: accounts@[0],
                    game_recorder: accounts@[1],
                    system_program: accounts@[2],
                    promoter: accounts@[3],
                },
            ),
    {
        if accounts.len() < 4 {
            return Err(GameError::NotEnoughAccountKeys);
        }
        Ok(
            Accounts {
                player: accounts[0],
                game_recorder: accounts[1],
                system_program: accounts[2],
                promoter: accounts[3],
            },
        )
    }

    /// The system program must be the real one, and the player must sign.
    pub fn check(&self) -> (r: Result<(), GameError>)
        ensures
            r is Ok <==> (is_system_id(self.system_program.key) && self.player.is_signer),
            r is Err ==> r == Err::<(), GameError>(GameError::UnauthorizedCaller),
    {
        if !self.system_program.key.same_as(&system_id()) || !self.player.is_signer {
            return Err(GameError::UnauthorizedCaller);
        }
        Ok(())
    }
}

/// Why Participate with guess `point` is refused on `rec`, if it is: the
/// guess must lie in `1..=max`, the promoter must be the record's, and nobody
/// may have joined yet.
pub open spec fn participate_error(
    program_id: Pubkey,
    a: Accounts,
    rec: GameRecord,
    point: u16,
) -> Option<GameError> {
    if point == 0 || point > rec.max {
        Some(GameError::InvalidParameters)
    } else if rec.promoter@ != a.promoter.key@ {
        Some(GameError::UnauthorizedCaller)
    } else if !is_unjoined(rec, program_id) {
        Some(GameError::IllegalState)
    } else {
        None
    }
}

/// The record once `player` has joined with guess `point` at time `now`.
pub open spec fn joined_record(rec: GameRecord, player: Pubkey, point: u16, now: i64) -> GameRecord {
    GameRecord { player, firing_point: point, shot_time: now, ..rec }
}

/// Joins the game stored in `record_data` with the guess in `params` at time
/// `now`. On success the record holds the player, the guess and the time, and
/// the result is the stake that the player owes the promoter. On any refusal
/// `record_data` is left as it is.
pub fn process_participate_game(
    program_id: &Pubkey,
    accounts: &[AccountRef],
    record_data: &mut [u8],
    params: &Params,
    now: i64,
) -> (r: Result<u64, GameError>)
    ensures
        accounts@.len() < 4 ==> r == Err::<u64, GameError>(GameError::NotEnoughAccountKeys),
        accounts@.len() >= 4 ==> {
            let a = Accounts {
                player: accounts@[0],
                game_recorder: accounts@[1],
                system_program: accounts@[2],
                promoter: accounts@[3],
            };
            if !(is_system_id(a.system_program.key) && a.player.is_signer) {
                r == Err::<u64, GameError>(GameError::UnauthorizedCaller)
            } else {
                match decode(old(record_data)@) {
                    None => r == Err::<u64, GameError>(GameError::InvalidAccountData),
                    Some(rec) => match participate_error(*program_id, a, rec, params.point) {
                        Some(e) => r == Err::<u64, GameError>(e),
                        None => r == Ok::<u64, GameError>(stake_of(rec.level))
                            && final(record_data)@ == encode(
                            joined_record(rec, a.player.key, params.point, now),
                        ) + old(record_data)@.subrange(89, old(record_data)@.len() as int),
                    },
                }
            }
        },
        r is Err ==> final(record_data)@ == old(record_data)@,
{
    let accounts = Accounts::parse(accounts)?;
    accounts.check()?;
    let mut data = GameRecord::unpack_from_slice(record_data)?;
    if params.point == 0 || params.point > data.max {
        return Err(GameError::InvalidParameters);
    }
    if !data.promoter.same_as(&accounts.promoter.key) {
        return Err(GameError::UnauthorizedCaller);
    }
    if data.firing_point != 0 || !data.player.same_as(program_id) {
        return Err(GameError::IllegalState);
    }
    let stake = data.level.get_bet();
    data.player = accounts.player.key;
    data.firing_point = params.point;
    data.shot_time = now;
    data.pack_into_slice(record_data);
    Ok(stake)
}

/// A game can be joined once: after a successful Participate, every further
/// Participate is refused, and one with a valid guess and the right promoter
/// is refused as an illegal state.
pub proof fn lemma_participate_once(
    program_id: Pubkey,
    a: Accounts,
    rec: GameRecord,
    point: u16,
    now: i64,
    a2: Accounts,
    point2: u16,
)
    requires
        participate_error(program_id, a, rec, point) is None,
    ensures
        participate_error(program_id, a2, joined_record(rec, a.player.key, point, now), point2) is Some,
        1 <= point2 <= rec.max && a2.promoter.key@ == rec.promoter@ ==> participate_error(
            program_id,
            a2,
            joined_record(rec, a.player.key, point, now),
            point2,
        ) == Some(GameError::IllegalState),
{
}

} // verus!
