use digital_bomb::constants::{vault, REVEAL_TIME};
use digital_bomb::error::GameError;
use digital_bomb::processor::end::{process_end_game, settle, Settlement};
use digital_bomb::processor::{create_game, delete, participate_game, reveal_game, AccountRef};
use digital_bomb::pubkey::Pubkey;
use digital_bomb::state::game::{GameLevel, GameRecord};
use digital_bomb::utils::{get_seeds_and_key, get_splicing_hash};

const RANDOM: [u8; 6] = [1, 2, 3, 4, 5, 6];

fn program() -> Pubkey {
    Pubkey::new_from_array([
        233, 65, 25, 50, 104, 99, 79, 246, 187, 236, 10, 154, 240, 175, 11, 72, 56, 94, 58, 120,
        152, 85, 121, 77, 70, 85, 242, 239, 240, 131, 214, 250,
    ])
}

fn promoter() -> Pubkey {
    Pubkey::new_from_array([11u8; 32])
}

fn player() -> Pubkey {
    Pubkey::new_from_array([22u8; 32])
}

fn system() -> Pubkey {
    Pubkey::new_from_array([0u8; 32])
}

fn acct(key: Pubkey, is_signer: bool) -> AccountRef {
    AccountRef { key, is_signer }
}

fn record_key(answer: u16) -> Pubkey {
    get_seeds_and_key(&get_splicing_hash(answer, RANDOM), &program()).unwrap().0
}

/// A created game of level D, odds 2.00, guesses up to 10, committed to 7.
fn created() -> (Pubkey, Vec<u8>, u64) {
    let key = record_key(7);
    let params = create_game::Params {
        max_number: 10,
        odds_x100: 200,
        splicing_hash: get_splicing_hash(7, RANDOM),
        game_level: 4,
    };
    let accounts = [acct(promoter(), true), acct(key, false), acct(system(), false)];
    let plan = create_game::process_create_game(&program(), &accounts, &params).unwrap();
    let mut data = vec![0u8; plan.space as usize];
    plan.record.pack_into_slice(&mut data);
    (key, data, plan.lamports)
}

fn participate(key: Pubkey, data: &mut Vec<u8>, point: u16, now: i64) -> Result<u64, GameError> {
    let accounts = [acct(player(), true), acct(key, false), acct(system(), false), acct(promoter(), false)];
    participate_game::process_participate_game(
        &program(),
        &accounts,
        data,
        &participate_game::Params { point },
        now,
    )
}

fn reveal_answer(key: Pubkey, data: &mut Vec<u8>, x: u16, now: i64) -> Result<(), GameError> {
    let accounts = [acct(promoter(), true), acct(key, false), acct(system(), false)];
    reveal_game::process_reveal_game(
        &program(),
        &accounts,
        data,
        &reveal_game::Params { x, random: RANDOM },
        now,
    )
}

fn end(key: Pubkey, settler: Pubkey, data: &mut Vec<u8>, balance: u64, now: i64) -> Result<Settlement, GameError> {
    let accounts = [
        acct(settler, true),
        acct(promoter(), false),
        acct(player(), false),
        acct(key, false),
        acct(vault(), false),
    ];
    process_end_game(&program(), &accounts, data, balance, now)
}

#[test]
fn create_prefunds_and_initialises() {
    let (_, data, lamports) = created();
    assert_eq!(lamports, 1_000_000 * 1_000);
    let rec = GameRecord::unpack_from_slice(&data).unwrap();
    assert_eq!(rec.promoter, promoter());
    assert_eq!(rec.player, program());
    assert_eq!(rec.level, GameLevel::D);
    assert_eq!(rec.firing_point, 0);
}

#[test]
fn create_uses_larger_odds() {
    let key = record_key(7);
    let params = create_game::Params {
        max_number: 2,
        odds_x100: 500,
        splicing_hash: get_splicing_hash(7, RANDOM),
        game_level: 3,
    };
    let accounts = [acct(promoter(), true), acct(key, false), acct(system(), false)];
    let plan = create_game::process_create_game(&program(), &accounts, &params).unwrap();
    assert_eq!(plan.lamports, 10_000_000 * 500);
    assert_eq!(plan.space, 89);
    assert_eq!(plan.seeds.len(), 65);
}

#[test]
fn create_refusals() {
    let key = record_key(7);
    let mut params = create_game::Params {
        max_number: 10,
        odds_x100: 200,
        splicing_hash: get_splicing_hash(7, RANDOM),
        game_level: 5,
    };
    let accounts = [acct(promoter(), true), acct(key, false), acct(system(), false)];
    assert!(matches!(
        create_game::process_create_game(&program(), &accounts, &params),
        Err(GameError::InvalidParameters)
    ));
    params.game_level = 0;
    params.odds_x100 = u32::MAX;
    assert!(matches!(
        create_game::process_create_game(&program(), &accounts, &params),
        Err(GameError::ArithmeticFault)
    ));
    params.odds_x100 = 200;
    let wrong = [acct(promoter(), true), acct(record_key(8), false), acct(system(), false)];
    assert!(matches!(
        create_game::process_create_game(&program(), &wrong, &params),
        Err(GameError::InvalidAddress)
    ));
    let unsigned = [acct(promoter(), false), acct(key, false), acct(system(), false)];
    assert!(matches!(
        create_game::process_create_game(&program(), &unsigned, &params),
        Err(GameError::UnauthorizedCaller)
    ));
    assert!(matches!(
        create_game::process_create_game(&program(), &accounts[..2], &params),
        Err(GameError::NotEnoughAccountKeys)
    ));
}

#[test]
fn participate_range_and_once() {
    let (key, mut data, _) = created();
    let before = data.clone();
    assert_eq!(participate(key, &mut data, 0, 100), Err(GameError::InvalidParameters));
    assert_eq!(participate(key, &mut data, 11, 100), Err(GameError::InvalidParameters));
    assert_eq!(data, before);
    assert_eq!(participate(key, &mut data, 10, 100), Ok(1_000_000));
    let rec = GameRecord::unpack_from_slice(&data).unwrap();
    assert_eq!(rec.player, player());
    assert_eq!(rec.firing_point, 10);
    assert_eq!(rec.shot_time, 100);
    let joined = data.clone();
    assert_eq!(participate(key, &mut data, 3, 200), Err(GameError::IllegalState));
    assert_eq!(data, joined);
}

#[test]
fn participate_wrong_promoter_or_unsigned() {
    let (key, mut data, _) = created();
    let accounts = [acct(player(), true), acct(key, false), acct(system(), false), acct(player(), false)];
    let params = participate_game::Params { point: 3 };
    assert_eq!(
        participate_game::process_participate_game(&program(), &accounts, &mut data, &params, 1),
        Err(GameError::UnauthorizedCaller)
    );
    let unsigned = [acct(player(), false), acct(key, false), acct(system(), false), acct(promoter(), false)];
    assert_eq!(
        participate_game::process_participate_game(&program(), &unsigned, &mut data, &params, 1),
        Err(GameError::UnauthorizedCaller)
    );
}

#[test]
fn reveal_window_edges() {
    let (key, mut data, _) = created();
    assert_eq!(reveal_answer(key, &mut data, 7, 50), Err(GameError::IllegalState));
    participate(key, &mut data, 7, 1_000).unwrap();
    let joined = data.clone();
    assert_eq!(reveal_answer(key, &mut data, 7, 1_000 + REVEAL_TIME + 1), Err(GameError::IllegalState));
    assert_eq!(reveal_answer(key, &mut data, 8, 1_000), Err(GameError::InvalidAddress));
    assert_eq!(data, joined);
    assert_eq!(reveal_answer(key, &mut data, 7, 1_000 + REVEAL_TIME), Ok(()));
    let rec = GameRecord::unpack_from_slice(&data).unwrap();
    assert_eq!(rec.answer, 7);
    assert_eq!(rec.random_string, RANDOM);
}

#[test]
fn level_d_scenario_player_wins() {
    let (key, mut data, prefund) = created();
    participate(key, &mut data, 7, 1_000).unwrap();
    reveal_answer(key, &mut data, 7, 1_500).unwrap();
    let s = end(key, player(), &mut data, prefund, 1_600).unwrap();
    assert_eq!(s.player, 1_980_000);
    assert_eq!(s.vault, 20_000);
    assert_eq!(s.promoter, prefund - 2_000_000);
    assert_eq!(s.player + s.promoter + s.vault, prefund);
    assert_eq!(data, vec![0u8; 89]);
}

#[test]
fn promoter_wins_on_wrong_guess() {
    let (key, mut data, prefund) = created();
    participate(key, &mut data, 3, 1_000).unwrap();
    reveal_answer(key, &mut data, 7, 1_500).unwrap();
    let s = end(key, promoter(), &mut data, prefund, 1_600).unwrap();
    assert_eq!(s, Settlement { player: 0, promoter: prefund - 20_000, vault: 20_000 });
}

#[test]
fn forced_win_after_timeout() {
    let (key, mut data, prefund) = created();
    participate(key, &mut data, 3, 1_000).unwrap();
    let s = end(key, player(), &mut data, prefund, 1_000 + REVEAL_TIME + 1).unwrap();
    assert_eq!(s, Settlement { player: prefund - 20_000, promoter: 0, vault: 20_000 });
    assert_eq!(data, vec![0u8; 89]);
}

#[test]
fn end_refused_before_reveal_in_window() {
    let (key, mut data, prefund) = created();
    participate(key, &mut data, 3, 1_000).unwrap();
    let joined = data.clone();
    assert_eq!(end(key, player(), &mut data, prefund, 1_000 + REVEAL_TIME), Err(GameError::IllegalState));
    assert_eq!(data, joined);
}

#[test]
fn end_refusals() {
    let (key, mut data, prefund) = created();
    assert_eq!(end(key, player(), &mut data, prefund, 10), Err(GameError::IllegalState));
    participate(key, &mut data, 7, 1_000).unwrap();
    reveal_answer(key, &mut data, 7, 1_500).unwrap();
    let stranger = Pubkey::new_from_array([33u8; 32]);
    assert_eq!(end(key, stranger, &mut data, prefund, 1_600), Err(GameError::UnauthorizedCaller));
    assert_eq!(end(key, player(), &mut data, 1_999_999, 1_600), Err(GameError::ArithmeticFault));
    let wrong_vault = [
        acct(player(), true),
        acct(promoter(), false),
        acct(player(), false),
        acct(key, false),
        acct(stranger, false),
    ];
    assert_eq!(
        process_end_game(&program(), &wrong_vault, &mut data, prefund, 1_600),
        Err(GameError::UnauthorizedCaller)
    );
    assert_ne!(data, vec![0u8; 89]);
}

#[test]
fn settle_split_values() {
    let mut rec = GameRecord::new(promoter(), 10, 200, 4, program());
    rec.player = player();
    rec.firing_point = 7;
    rec.answer = 7;
    assert_eq!(
        settle(&rec, 10_000_000),
        Ok(Settlement { player: 1_980_000, promoter: 8_000_000, vault: 20_000 })
    );
    rec.odds_x100 = u32::MAX;
    rec.level = GameLevel::S;
    assert_eq!(settle(&rec, u64::MAX), Err(GameError::ArithmeticFault));
}

#[test]
fn delete_refunds_and_erases() {
    let (key, mut data, prefund) = created();
    let accounts = [acct(promoter(), true), acct(key, false), acct(system(), false)];
    assert_eq!(delete::process_delete_game(&program(), &accounts, &mut data, prefund), Ok(prefund));
    assert_eq!(data, vec![0u8; 89]);
}

#[test]
fn delete_refused_after_join_or_by_stranger() {
    let (key, mut data, prefund) = created();
    let strangers = [acct(player(), true), acct(key, false), acct(system(), false)];
    assert_eq!(
        delete::process_delete_game(&program(), &strangers, &mut data, prefund),
        Err(GameError::UnauthorizedCaller)
    );
    participate(key, &mut data, 3, 1_000).unwrap();
    let joined = data.clone();
    let accounts = [acct(promoter(), true), acct(key, false), acct(system(), false)];
    assert_eq!(
        delete::process_delete_game(&program(), &accounts, &mut data, prefund),
        Err(GameError::IllegalState)
    );
    assert_eq!(data, joined);
}
