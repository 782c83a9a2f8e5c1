use vstd::prelude::*;

use crate::constants::{vault, vault_bytes};
use crate::error::GameError;
use crate::processor::create_game::prefund_of;
use crate::processor::{erase, zeroed, AccountRef};
use crate::pubkey::Pubkey;
use crate::state::game::{decode, is_joined, stake_of, GameRecord};
use crate::utils::{if_reveal_time, percent_of, within_window};

verus! {

/// The accounts of the End transition, in order.
#[derive(Clone, Copy, Debug, PartialEq, Eq)]
pub struct Accounts {
    /// Whoever settles: the player or the promoter; must sign.
    pub terminator: AccountRef,
    pub promoter: AccountRef,
    pub player: AccountRef,
    pub game_recorder: AccountRef,
    /// The vault that collects the house fee.
    pub vault: AccountRef,
}

/// How the escrowed balance of a settled game is split.
#[derive(Clone, Copy, Debug, PartialEq, Eq)]
pub struct Settlement {
    pub player: u64,
    pub promoter: u64,
    pub vault: u64,
}

impl Accounts {
    /// The five accounts, in order, from the front of `accounts`.
    pub fn parse(accounts: &[AccountRef]) -> (r: Result<Accounts, GameError>)
        ensures
            accounts@.len() < 5 ==> r == Err::<Accounts, GameError>(
                GameError::NotEnoughAccountKeys,
            ),
            accounts@.len() >= 5 ==> r == Ok::<Accounts, GameError>(
                Accounts {
                    terminator: accounts@[0],
                    promoter: accounts@[1],
                    player: accounts@[2],
                    game_recorder: accounts@[3],
                    vault: accounts@[4],
                },
            ),
    {
        if accounts.len() < 5 {
            return Err(GameError::NotEnoughAccountKeys);
        }
        Ok(
            Accounts {
                terminator: accounts[0],
                promoter: accounts[1],
                player: accounts[2],
                game_recorder: accounts[3],
                vault: accounts[4],
            },
        )
    }

    /// The vault must be the house vault, and the settler must sign.
    pub fn check(&self) -> (r: Result<(), GameError>)
        ensures
            r is Ok <==> (self.vault.key@ == vault_bytes() && self.terminator.is_signer),
            r is Err ==> r == Err::<(), GameError>(GameError::UnauthorizedCaller),
    {
        if !self.vault.key.same_as(&vault()) || !self.terminator.is_signer {
            return Err(GameError::UnauthorizedCaller);
        }
        Ok(())
    }
}

/// What a winning player is owed before the fee: the stake times the odds.
pub open spec fn win_of(r: GameRecord) -> int {
    stake_of(r.level) * r.odds_x100 / 100
}

/// The house fee on a payout of `win`: one percent, rounded down.
pub open spec fn fee_of(win: int) -> int {
    win / 100
}

/// The split of `balance` for a joined record whose settlement is permitted.
///
/// A guess equal to the answer wins: the player gets the win less the fee,
/// the promoter the rest of the balance less the win. An answer of 0 (never
/// revealed) forfeits the balance less the fee to the player. Otherwise the
/// promoter takes the balance less the fee. The fee goes to the vault. Amounts
/// that do not fit, or exceed the balance, are an arithmetic fault.
pub open spec fn settle_outcome(r: GameRecord, balance: u64) -> Result<Settlement, GameError> {
    let win = stake_of(r.level) * r.odds_x100;
    if win > u64::MAX {
        Err(GameError::ArithmeticFault)
    } else {
        let win = win_of(r);
        let fee = fee_of(win);
        if r.firing_point == r.answer {
            if win > balance {
                Err(GameError::ArithmeticFault)
            } else {
                Ok(
                    Settlement {
                        player: (win - fee) as u64,
                        promoter: (balance - win) as u64,
                        vault: fee as u64,
                    },
                )
            }
        } else if fee > balance {
            Err(GameError::ArithmeticFault)
        } else if r.answer == 0 {
            Ok(Settlement { player: (balance - fee) as u64, promoter: 0, vault: fee as u64 })
        } else {
            Ok(Settlement { player: 0, promoter: (balance - fee) as u64, vault: fee as u64 })
        }
    }
}

/// Why End is refused on `rec` before any amount is computed, if it is.
pub open spec fn end_error(program_id: Pubkey, a: Accounts, rec: GameRecord, now: i64) -> Option<
    GameError,
> {
    if !is_joined(rec, program_id) {
        Some(GameError::IllegalState)
    } else if within_window(rec.shot_time, now) && rec.answer == 0 {
        Some(GameError::IllegalState)
    } else if rec.promoter@ != a.promoter.key@ || rec.player@ != a.player.key@ {
        Some(GameError::UnauthorizedCaller)
    } else if a.terminator.key@ != rec.player@ && a.terminator.key@ != rec.promoter@ {
        Some(GameError::UnauthorizedCaller)
    } else {
        None
    }
}

/// The split of the escrowed `balance` of a joined record.
pub fn settle(record: &GameRecord, balance: u64) -> (r: Result<Settlement, GameError>)
    ensures
        r == settle_outcome(*record, balance),
        r matches Ok(s) ==> s.player + s.promoter + s.vault == balance,
{
    let product = match record.level.get_bet().checked_mul(record.odds_x100 as u64) {
        Some(p) => p,
        None => {
            return Err(GameError::ArithmeticFault);
        },
    };
    let win: u64 = product / 100;
    let vault_fee = percent_of(win, 1);
    if record.firing_point == record.answer {
        if win > balance {
            return Err(GameError::ArithmeticFault);
        }
        Ok(Settlement { player: win - vault_fee, promoter: balance - win, vault: vault_fee })
    } else if vault_fee > balance {
        Err(GameError::ArithmeticFault)
    } else if record.answer == 0 {
        Ok(Settlement { player: balance - vault_fee, promoter: 0, vault: vault_fee })
    } else {
        Ok(Settlement { player: 0, promoter: balance - vault_fee, vault: vault_fee })
    }
}

/// Settles a joined game at time `now`: splits the record's `balance` and
/// erases the record. Settling is refused while the reveal window is open and
/// nothing was revealed; past the window an unrevealed game goes to the
/// player. On any refusal `record_data` is left as it is.
pub fn process_end_game(
    program_id: &Pubkey,
    accounts: &[AccountRef],
    record_data: &mut [u8],
    balance: u64,
    now: i64,
) -> (r: Result<Settlement, GameError>)
    ensures
        accounts@.len() < 5 ==> r == Err::<Settlement, GameError>(GameError::NotEnoughAccountKeys),
        accounts@.len() >= 5 ==> {
            let a = Accounts {
                terminator: accounts@[0],
                promoter: accounts@[1],
                player: accounts@[2],
                game_recorder: accounts@[3],
                vault: accounts@[4],
            };
            if !(a.vault.key@ == vault_bytes() && a.terminator.is_signer) {
                r == Err::<Settlement, GameError>(GameError::UnauthorizedCaller)
            } else {
                match decode(old(record_data)@) {
                    None => r == Err::<Settlement, GameError>(GameError::InvalidAccountData),
                    Some(rec) => match end_error(*program_id, a, rec, now) {
                        Some(e) => r == Err::<Settlement, GameError>(e),
                        None => r == settle_outcome(rec, balance),
                    },
                }
            }
        },
        r is Ok ==> final(record_data)@ == zeroed(old(record_data)@.len()),
        r is Err ==> final(record_data)@ == old(record_data)@,
        r matches Ok(s) ==> s.player + s.promoter + s.vault == balance,
{
    let accounts = Accounts::parse(accounts)?;
    accounts.check()?;
    let data = GameRecord::unpack_from_slice(record_data)?;
    if data.firing_point == 0 || data.player.same_as(program_id) {
        return Err(GameError::IllegalState);
    }
    if if_reveal_time(data.shot_time, now) && data.answer == 0 {
        return Err(GameError::IllegalState);
    }
    if !data.promoter.same_as(&accounts.promoter.key) || !data.player.same_as(
        &accounts.player.key,
    ) {
        return Err(GameError::UnauthorizedCaller);
    }
    if !accounts.terminator.key.same_as(&data.player) && !accounts.terminator.key.same_as(
        &data.promoter,
    ) {
        return Err(GameError::UnauthorizedCaller);
    }
    let settlement = settle(&data, balance)?;
    erase(record_data);
    Ok(settlement)
}

/// A guess equal to the answer pays the player the win less the fee, the
/// promoter the balance less the win, and the vault the fee; the three add up
/// to the balance exactly.
pub proof fn lemma_match_payout(r: GameRecord, balance: u64)
    requires
        r.firing_point == r.answer,
        stake_of(r.level) * r.odds_x100 <= u64::MAX,
        win_of(r) <= balance,
    ensures
        settle_outcome(r, balance) == Ok::<Settlement, GameError>(
            Settlement {
                player: (win_of(r) - fee_of(win_of(r))) as u64,
                promoter: (balance - win_of(r)) as u64,
                vault: fee_of(win_of(r)) as u64,
            },
        ),
        (win_of(r) - fee_of(win_of(r))) + (balance - win_of(r)) + fee_of(win_of(r)) == balance,
{
}

/// Past the reveal window with nothing revealed, End goes through and pays
/// the player the whole balance less the fee; the promoter gets nothing.
pub proof fn lemma_forced_player_win(
    program_id: Pubkey,
    a: Accounts,
    r: GameRecord,
    balance: u64,
    now: i64,
)
    requires
        is_joined(r, program_id),
        !within_window(r.shot_time, now),
        r.answer == 0,
        r.promoter@ == a.promoter.key@,
        r.player@ == a.player.key@,
        a.terminator.key@ == r.player@ || a.terminator.key@ == r.promoter@,
        stake_of(r.level) * r.odds_x100 <= u64::MAX,
        fee_of(win_of(r)) <= balance,
    ensures
        end_error(program_id, a, r, now) is None,
        settle_outcome(r, balance) == Ok::<Settlement, GameError>(
            Settlement {
                player: (balance - fee_of(win_of(r))) as u64,
                promoter: 0,
                vault: fee_of(win_of(r)) as u64,
            },
        ),
{
}

/// While the reveal window is open and nothing was revealed, End is refused.
pub proof fn lemma_no_settlement_before_reveal(
    program_id: Pubkey,
    a: Accounts,
    r: GameRecord,
    now: i64,
)
    requires
        is_joined(r, program_id),
        within_window(r.shot_time, now),
        r.answer == 0,
    ensures
        end_error(program_id, a, r, now) == Some(GameError::IllegalState),
{
}

/// A balance of at least the prefund of the record's parameters always
/// covers settlement: no outcome is an arithmetic fault.
pub proof fn lemma_prefund_covers_payout(r: GameRecord, balance: u64)
    requires
        balance >= prefund_of(r.level, r.odds_x100, r.max),
    ensures
        settle_outcome(r, balance) is Ok,
{
    let stake = stake_of(r.level) as int;
    let odds = r.odds_x100 as int;
    let bound = prefund_of(r.level, r.odds_x100, r.max);
    assert(stake * odds <= bound) by (nonlinear_arith)
        requires
            stake >= 0,
            bound == stake * (if odds >= r.max * 100 { odds } else { r.max * 100 }),
    ;
    assert(win_of(r) <= stake * odds) by (nonlinear_arith)
        requires
            win_of(r) == stake * odds / 100,
            stake * odds >= 0,
    ;
}

} // verus!
