//! A two-party wagering game settled by commit and reveal: a promoter commits
//! to a secret answer, a player stakes funds on a guess, the promoter reveals,
//! and settlement splits the escrowed funds.

pub mod constants;
pub mod error;
pub mod instruction;
pub mod processor;
pub mod pubkey;
pub mod state;
pub mod utils;
