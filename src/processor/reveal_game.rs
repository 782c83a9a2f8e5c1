use vstd::prelude::*;

use crate::constants::system_id;
use crate::error::GameError;
use crate::processor::{is_system_id, AccountRef};
use crate::pubkey::Pubkey;
use crate::state::game::{decode, encode, is_joined, GameRecord};
use crate::utils::{
    commit_of, game_address, get_seeds_and_key, get_splicing_hash, if_reveal_time, within_window,
};

verus! {

/// The payload of Reveal: the committed answer and nonce.
#[derive(Clone, Copy, Debug, PartialEq, Eq)]
pub struct Params {
    pub x: u16,
    pub random: [u8; 6],
}

/// The accounts of the Reveal transition, in order.
#[derive(Clone, Copy, Debug, PartialEq, Eq)]
pub struct Accounts {
    /// The game's promoter; must sign.
    pub promoter: AccountRef,
    pub game_recorder: AccountRef,
    pub system_program: AccountRef,
}

impl Accounts {
    /// The three accounts, in order, from the front of `accounts`.
    pub fn parse(accounts: &[AccountRef]) -> (r: Result<Accounts, GameError>)
        ensures
            accounts@.len() < 3 ==> r == Err::<Accounts, GameError>(
                GameError::NotEnoughAccountKeys,
            ),
            accounts@.len() >= 3 ==> r == Ok::<Accounts, GameError>(
                Accounts {
                    promoter: accounts@[0],
                    game_recorder: accounts@[1],
                    system_program: accounts@[2],
                },
            ),
    {
        if accounts.len() < 3 {
            return Err(GameError::NotEnoughAccountKeys);
        }
        Ok(
            Accounts {
                promoter: accounts[0],
                game_recorder: accounts[1],
                system_program: accounts[2],
            },
        )
    }

    /// The system program must be the real one, and the promoter must sign.
    pub fn check(&self) -> (r: Result<(), GameError>)
        ensures
            r is Ok <==> (is_system_id(self.system_program.key) && self.promoter.is_signer),
            r is Err ==> r == Err::<(), GameError>(GameError::UnauthorizedCaller),
    {
        if !self.system_program.key.same_as(&system_id()) || !self.promoter.is_signer {
            return Err(GameError::UnauthorizedCaller);
        }
        Ok(())
    }
}

/// Whether `x` and `random` open the commitment that `record_key` was derived
/// from.
pub open spec fn opens_commitment(program_id: Pubkey, record_key: Pubkey, x: u16, random: Seq<u8>) -> bool {
    game_address(commit_of(x, random), program_id@) matches Some((key, _)) && key == record_key@
}

/// Why Reveal is refused on the decoded `rec`, if it is: the promoter must be
/// the record's, a player must have joined, and the reveal window must still be
/// open at `now`.
pub open spec fn reveal_error(program_id: Pubkey, a: Accounts, rec: GameRecord, now: i64) -> Option<
    GameError,
> {
    if rec.promoter@ != a.promoter.key@ {
        Some(GameError::UnauthorizedCaller)
    } else if !is_joined(rec, program_id) {
        Some(GameError::IllegalState)
    } else if !within_window(rec.shot_time, now) {
        Some(GameError::IllegalState)
    } else {
        None
    }
}

/// Reveals the answer and nonce of `params` on the record in `record_data` at
/// time `now`. They must open the commitment that the record's address was
/// derived from. On success the record holds them; on any refusal
/// `record_data` is left as it is.
pub fn process_reveal_game(
    program_id: &Pubkey,
    accounts: &[AccountRef],
    record_data: &mut [u8],
    params: &Params,
    now: i64,
) -> (r: Result<(), GameError>)
    ensures
        accounts@.len() < 3 ==> r == Err::<(), GameError>(GameError::NotEnoughAccountKeys),
        accounts@.len() >= 3 ==> {
            let a = Accounts {
                promoter: accounts@[0],
                game_recorder: accounts@[1],
                system_program: accounts@[2],
            };
            if !(is_system_id(a.system_program.key) && a.promoter.is_signer) {
                r == Err::<(), GameError>(GameError::UnauthorizedCaller)
            } else if !opens_commitment(*program_id, a.game_recorder.key, params.x, params.random@) {
                r == Err::<(), GameError>(GameError::InvalidAddress)
            } else {
                match decode(old(record_data)@) {
                    None => r == Err::<(), GameError>(GameError::InvalidAccountData),
                    Some(rec) => match reveal_error(*program_id, a, rec, now) {
                        Some(e) => r == Err::<(), GameError>(e),
                        None => r is Ok && final(record_data)@ == encode(
                            GameRecord { answer: params.x, random_string: params.random, ..rec },
                        ) + old(record_data)@.subrange(89, old(record_data)@.len() as int),
                    },
                }
            }
        },
        r is Err ==> final(record_data)@ == old(record_data)@,
{
    let accounts = Accounts::parse(accounts)?;
    accounts.check()?;
    let commit = get_splicing_hash(params.x, params.random);
    let (game, _seeds) = get_seeds_and_key(&commit, program_id)?;
    if !accounts.game_recorder.key.same_as(&game) {
        return Err(GameError::InvalidAddress);
    }
    let mut data = GameRecord::unpack_from_slice(record_data)?;
    if !data.promoter.same_as(&accounts.promoter.key) {
        return Err(GameError::UnauthorizedCaller);
    }
    if data.firing_point == 0 || data.player.same_as(program_id) {
        return Err(GameError::IllegalState);
    }
    if !if_reveal_time(data.shot_time, now) {
        return Err(GameError::IllegalState);
    }
    data.answer = params.x;
    data.random_string = params.random;
    data.pack_into_slice(record_data);
    Ok(())
}

/// The reveal window is closed exactly when `shot_time + REVEAL_TIME < now`:
/// for a record that passes every other check, Reveal is refused past the
/// window and accepted up to and including its last second.
pub proof fn lemma_reveal_window(program_id: Pubkey, a: Accounts, rec: GameRecord, now: i64)
    requires
        rec.promoter@ == a.promoter.key@,
        is_joined(rec, program_id),
    ensures
        reveal_error(program_id, a, rec, now) is None <==> rec.shot_time
            + crate::constants::REVEAL_TIME >= now,
        rec.shot_time + crate::constants::REVEAL_TIME == now ==> reveal_error(
            program_id,
            a,
            rec,
            now,
        ) is None,
        rec.shot_time + crate::constants::REVEAL_TIME < now ==> reveal_error(
            program_id,
            a,
            rec,
            now,
        ) == Some(GameError::IllegalState),
{
}

} // verus!
