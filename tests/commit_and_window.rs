use digital_bomb::constants::REVEAL_TIME;
use digital_bomb::error::GameError;
use digital_bomb::instruction::ProgramInstruction;
use digital_bomb::processor::Processor;
use digital_bomb::pubkey::Pubkey;
use digital_bomb::utils::{get_seeds_and_key, get_splicing_hash, if_reveal_time, percent_of};

const TAG_DIGEST: [u8; 32] = [
    108, 165, 202, 183, 126, 112, 44, 120, 123, 76, 20, 179, 211, 191, 38, 186, 212, 61, 166, 6,
    190, 110, 237, 4, 171, 11, 151, 32, 18, 10, 224, 129,
];

fn program() -> Pubkey {
    Pubkey::new_from_array([
        233, 65, 25, 50, 104, 99, 79, 246, 187, 236, 10, 154, 240, 175, 11, 72, 56, 94, 58, 120,
        152, 85, 121, 77, 70, 85, 242, 239, 240, 131, 214, 250,
    ])
}

#[test]
fn commit_matches_known_digest() {
    let expected: [u8; 32] = [
        168, 105, 93, 254, 53, 121, 162, 13, 249, 242, 161, 150, 43, 167, 77, 216, 207, 175, 192,
        244, 226, 36, 77, 136, 84, 210, 148, 85, 82, 122, 93, 32,
    ];
    assert_eq!(get_splicing_hash(7, [1, 2, 3, 4, 5, 6]), expected);
}

#[test]
fn commit_is_deterministic_and_input_sensitive() {
    let a = get_splicing_hash(7, [1, 2, 3, 4, 5, 6]);
    assert_eq!(a, get_splicing_hash(7, [1, 2, 3, 4, 5, 6]));
    assert_ne!(a, get_splicing_hash(8, [1, 2, 3, 4, 5, 6]));
    assert_ne!(a, get_splicing_hash(7, [1, 2, 3, 4, 5, 7]));
    assert_ne!(a, get_splicing_hash(7, [0u8; 6]));
}

#[test]
fn address_derivation_matches_runtime() {
    let commit = get_splicing_hash(7, [1, 2, 3, 4, 5, 6]);
    let (key, seeds) = get_seeds_and_key(&commit, &program()).unwrap();
    assert_eq!(seeds.len(), 65);
    assert_eq!(&seeds[..32], &commit[..]);
    assert_eq!(&seeds[32..64], &TAG_DIGEST[..]);
    let id = solana_program::pubkey::Pubkey::new_from_array(program().bytes);
    let (expected, bump) =
        solana_program::pubkey::Pubkey::find_program_address(&[&commit[..], &TAG_DIGEST[..]], &id);
    assert_eq!(key.bytes, expected.to_bytes());
    assert_eq!(seeds[64], bump);
}

#[test]
fn address_is_deterministic_and_distinct() {
    let c1 = get_splicing_hash(7, [1, 2, 3, 4, 5, 6]);
    let c2 = get_splicing_hash(3, [1, 2, 3, 4, 5, 6]);
    let (k1, _) = get_seeds_and_key(&c1, &program()).unwrap();
    let (k1_again, _) = get_seeds_and_key(&c1, &program()).unwrap();
    let (k2, _) = get_seeds_and_key(&c2, &program()).unwrap();
    assert_eq!(k1, k1_again);
    assert_ne!(k1, k2);
}

#[test]
fn reveal_window_boundary() {
    assert!(if_reveal_time(1_000, 1_000 + REVEAL_TIME));
    assert!(!if_reveal_time(1_000, 1_000 + REVEAL_TIME + 1));
    assert!(if_reveal_time(1_000, 1_000));
    assert!(if_reveal_time(i64::MAX, i64::MAX));
    assert!(!if_reveal_time(i64::MIN, 0));
}

#[test]
fn percent_of_rounds_down_and_saturates() {
    assert_eq!(percent_of(2_000_000, 1), 20_000);
    assert_eq!(percent_of(199, 1), 1);
    assert_eq!(percent_of(99, 1), 0);
    assert_eq!(percent_of(1_000, 50), 500);
    assert_eq!(percent_of(u64::MAX, 2), u64::MAX / 100);
}

#[test]
fn instruction_codes() {
    assert_eq!(Processor::unpack_instruction(&[0]), Ok(ProgramInstruction::CreateGame));
    assert_eq!(Processor::unpack_instruction(&[1, 9]), Ok(ProgramInstruction::Participate));
    assert_eq!(Processor::unpack_instruction(&[2]), Ok(ProgramInstruction::Reveal));
    assert_eq!(Processor::unpack_instruction(&[3]), Ok(ProgramInstruction::End));
    assert_eq!(Processor::unpack_instruction(&[4]), Ok(ProgramInstruction::Delete));
    assert_eq!(Processor::unpack_instruction(&[5]), Err(GameError::InvalidParameters));
    assert_eq!(Processor::unpack_instruction(&[]), Err(GameError::InvalidParameters));
}
