use vstd::prelude::*;

use crate::constants::system_id;
use crate::error::GameError;
use crate::processor::{erase, is_system_id, zeroed, AccountRef};
use crate::pubkey::Pubkey;
use crate::state::game::{decode, is_initial_record, is_unjoined, GameLevel, GameRecord};

verus! {

/// The accounts of the Delete transition, in order.
#[derive(Clone, Copy, Debug, PartialEq, Eq)]
pub struct Accounts {
    /// The game's promoter; must sign.
    pub promoter: AccountRef,
    pub game_recorder: AccountRef,
    pub system_program: AccountRef,
}

impl Accounts {
    /// The three accounts, in order, from the front of `accounts`.
    pub fn parse(accounts: &[AccountRef]) -> (r: Result<Accounts, GameError>)
        ensures
            accounts@.len() < 3 ==> r == Err::<Accounts, GameError>(
                GameError::NotEnoughAccountKeys,
            ),
            accounts@.len() >= 3 ==> r == Ok::<Accounts, GameError>(
                Accounts {
                    promoter: accounts@[0],
                    game_recorder: accounts@[1],
                    system_program: accounts@[2],
                },
            ),
    {
        if accounts.len() < 3 {
            return Err(GameError::NotEnoughAccountKeys);
        }
        Ok(
            Accounts {
                promoter: accounts[0],
                game_recorder: accounts[1],
                system_program: accounts[2],
            },
        )
    }

    /// The system program must be the real one, and the promoter must sign.
    pub fn check(&self) -> (r: Result<(), GameError>)
        ensures
            r is Ok <==> (is_system_id(self.system_program.key) && self.promoter.is_signer),
            r is Err ==> r == Err::<(), GameError>(GameError::UnauthorizedCaller),
    {
        if !self.system_program.key.same_as(&system_id()) || !self.promoter.is_signer {
            return Err(GameError::UnauthorizedCaller);
        }
        Ok(())
    }
}

/// Why Delete is refused on `rec`, if it is: only the record's promoter may
/// delete, and only while nobody has joined.
pub open spec fn delete_error(program_id: Pubkey, a: Accounts, rec: GameRecord) -> Option<GameError> {
    if rec.promoter@ != a.promoter.key@ {
        Some(GameError::UnauthorizedCaller)
    } else if !is_unjoined(rec, program_id) {
        Some(GameError::IllegalState)
    } else {
        None
    }
}

/// Cancels an unjoined game: erases the record and returns the amount to
/// refund to the promoter, which is the record's whole `balance`. On any
/// refusal `record_data` is left as it is.
pub fn process_delete_game(
    program_id: &Pubkey,
    accounts: &[AccountRef],
    record_data: &mut [u8],
    balance: u64,
) -> (r: Result<u64, GameError>)
    ensures
        accounts@.len() < 3 ==> r == Err::<u64, GameError>(GameError::NotEnoughAccountKeys),
        accounts@.len() >= 3 ==> {
            let a = Accounts {
                promoter: accounts@[0],
                game_recorder: accounts@[1],
                system_program: accounts@[2],
            };
            if !(is_system_id(a.system_program.key) && a.promoter.is_signer) {
                r == Err::<u64, GameError>(GameError::UnauthorizedCaller)
            } else {
                match decode(old(record_data)@) {
                    None => r == Err::<u64, GameError>(GameError::InvalidAccountData),
                    Some(rec) => match delete_error(*program_id, a, rec) {
                        Some(e) => r == Err::<u64, GameError>(e),
                        None => r == Ok::<u64, GameError>(balance),
                    },
                }
            }
        },
        r is Ok ==> final(record_data)@ == zeroed(old(record_data)@.len()),
        r is Err ==> final(record_data)@ == old(record_data)@,
{
    let accounts = Accounts::parse(accounts)?;
    accounts.check()?;
    let data = GameRecord::unpack_from_slice(record_data)?;
    if !data.promoter.same_as(&accounts.promoter.key) {
        return Err(GameError::UnauthorizedCaller);
    }
    if data.firing_point != 0 || !data.player.same_as(program_id) {
        return Err(GameError::IllegalState);
    }
    erase(record_data);
    Ok(balance)
}

/// A record as its promoter opened it can be deleted by that promoter, so the
/// whole prefund comes back; once a guess is recorded it can no longer be
/// deleted.
pub proof fn lemma_delete_only_unjoined(
    program_id: Pubkey,
    a: Accounts,
    rec: GameRecord,
    max: u16,
    odds: u32,
    level: GameLevel,
)
    ensures
        is_initial_record(rec, a.promoter.key, max, odds, level, program_id) ==> delete_error(
            program_id,
            a,
            rec,
        ) is None,
        rec.firing_point != 0 ==> delete_error(program_id, a, rec) is Some,
{
}

} // verus!
