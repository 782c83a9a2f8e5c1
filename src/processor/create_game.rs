use vstd::prelude::*;

use crate::constants::{system_id, RECORD_LEN};
use crate::error::GameError;
use crate::processor::{is_system_id, AccountRef};
use crate::pubkey::Pubkey;
use crate::state::game::{is_initial_record, level_from_code, stake_of, GameLevel, GameRecord};
use crate::utils::{game_address, get_seeds_and_key, game_tag, sha256_of};

verus! {

/// The payload of CreateGame.
#[derive(Clone, Copy, Debug, PartialEq, Eq)]
pub struct Params {
    /// The largest valid guess.
    pub max_number: u16,
    /// The payout multiplier, in hundredths.
    pub odds_x100: u32,
    /// The promoter's commitment to the answer and nonce.
    pub splicing_hash: [u8; 32],
    /// The stake tier's code.
    pub game_level: u8,
}

/// The accounts of the CreateGame transition, in order.
#[derive(Clone, Copy, Debug, PartialEq, Eq)]
pub struct Accounts {
    /// The game's promoter, who pays the prefund; must sign.
    pub promoter: AccountRef,
    pub game_recorder: AccountRef,
    pub system_program: AccountRef,
}

/// What opening a game takes: a record account of `space` bytes, funded with
/// `lamports` by the promoter and signed for with `seeds`, holding `record`.
#[derive(Debug)]
pub struct CreateGame {
    pub lamports: u64,
    pub space: u64,
    pub seeds: Vec<u8>,
    pub record: GameRecord,
}

impl Accounts {
    /// The three accounts, in order, from the front of `accounts`.
    pub fn parse(accounts: &[AccountRef]) -> (r: Result<Accounts, GameError>)
        ensures
            accounts@.len() < 3 ==> r == Err::<Accounts, GameError>(
                GameError::NotEnoughAccountKeys,
            ),
            accounts@.len() >= 3 ==> r == Ok::<Accounts, GameError>(
                Accounts {
                    promoter: accounts@[0],
                    game_recorder: accounts@[1],
                    system_program: accounts@[2],
                },
            ),
    {
        if accounts.len() < 3 {
            return Err(GameError::NotEnoughAccountKeys);
        }
        Ok(
            Accounts {
                promoter: accounts[0],
                game_recorder: accounts[1],
                system_program: accounts[2],
            },
        )
    }

    /// The system program must be the real one, and the promoter must sign.
    pub fn check(&self) -> (r: Result<(), GameError>)
        ensures
            r is Ok <==> (is_system_id(self.system_program.key) && self.promoter.is_signer),
            r is Err ==> r == Err::<(), GameError>(GameError::UnauthorizedCaller),
    {
        if !self.system_program.key.same_as(&system_id()) || !self.promoter.is_signer {
            return Err(GameError::UnauthorizedCaller);
        }
        Ok(())
    }
}

/// The prefund of a game: the stake times the larger of the odds and a
/// hundred times the largest guess, which covers the largest payout the
/// promoter can owe.
pub open spec fn prefund_of(level: GameLevel, odds_x100: u32, max_number: u16) -> int {
    stake_of(level) * if odds_x100 >= max_number * 100 {
        odds_x100 as int
    } else {
        max_number * 100
    }
}

/// Opens a game: checks that the record account is the address derived from
/// the commitment, and returns the record and what it takes to open it. The
/// result is refused with an invalid address where the derivation fails or
/// the account differs, with invalid parameters for an unknown level, and
/// with an arithmetic fault where the prefund does not fit in 64 bits.
pub fn process_create_game(
    program_id: &Pubkey,
    accounts: &[AccountRef],
    params: &Params,
) -> (r: Result<CreateGame, GameError>)
    ensures
        accounts@.len() < 3 ==> r matches Err(GameError::NotEnoughAccountKeys),
        accounts@.len() >= 3 ==> {
            let a = Accounts {
                promoter: accounts@[0],
                game_recorder: accounts@[1],
                system_program: accounts@[2],
            };
            if !(is_system_id(a.system_program.key) && a.promoter.is_signer) {
                r matches Err(GameError::UnauthorizedCaller)
            } else {
                match game_address(params.splicing_hash@, program_id@) {
                    None => r matches Err(GameError::InvalidAddress),
                    Some((key, bump)) => if key != a.game_recorder.key@ {
                        r matches Err(GameError::InvalidAddress)
                    } else {
                        match level_from_code(params.game_level) {
                            None => r matches Err(GameError::InvalidParameters),
                            Some(level) => if prefund_of(
                                level,
                                params.odds_x100,
                                params.max_number,
                            ) > u64::MAX {
                                r matches Err(GameError::ArithmeticFault)
                            } else {
                                r matches Ok(c) && c.lamports == prefund_of(
                                    level,
                                    params.odds_x100,
                                    params.max_number,
                                ) && c.space == RECORD_LEN && c.seeds@ == params.splicing_hash@
                                    + sha256_of(game_tag()) + seq![bump] && is_initial_record(
                                    c.record,
                                    a.promoter.key,
                                    params.max_number,
                                    params.odds_x100,
                                    level,
                                    *program_id,
                                )
                            }
                        }
                    },
                }
            }
        },
{
    let accounts = Accounts::parse(accounts)?;
    accounts.check()?;
    let (game, game_seeds) = get_seeds_and_key(&params.splicing_hash, program_id)?;
    if !accounts.game_recorder.key.same_as(&game) {
        return Err(GameError::InvalidAddress);
    }
    let level = GameLevel::from_u8(&params.game_level)?;
    let guess_bound: u32 = params.max_number as u32 * 100;
    let multiplier: u32 = if params.odds_x100 >= guess_bound {
        params.odds_x100
    } else {
        guess_bound
    };
    let pre_store = match level.get_bet().checked_mul(multiplier as u64) {
        Some(p) => p,
        None => {
            return Err(GameError::ArithmeticFault);
        },
    };
    let record = GameRecord::new(
        accounts.promoter.key,
        params.max_number,
        params.odds_x100,
        params.game_level,
        *program_id,
    );
    Ok(CreateGame { lamports: pre_store, space: RECORD_LEN as u64, seeds: game_seeds, record })
}

} // verus!
