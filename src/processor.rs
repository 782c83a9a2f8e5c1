//! The game's transitions. Each one checks its accounts and the stored record,
//! then either applies in full or is refused with nothing changed.

use vstd::prelude::*;

use crate::error::GameError;
use crate::instruction::{instruction_from_code, ProgramInstruction};
use crate::pubkey::Pubkey;

pub mod create_game;
pub mod delete;
pub mod end;
pub mod participate_game;
pub mod reveal_game;

verus! {

/// An account handed to a transition: its address and whether it signed.
#[derive(Clone, Copy, Debug, PartialEq, Eq)]
pub struct AccountRef {
    pub key: Pubkey,
    pub is_signer: bool,
}

/// Entry point of the instruction set.
pub struct Processor {}

impl Processor {
    /// The operation named by the first byte of `instruction_data`; its
    /// payload is the rest.
    pub fn unpack_instruction(instruction_data: &[u8]) -> (r: Result<ProgramInstruction, GameError>)
        ensures
            instruction_data@.len() == 0 ==> r == Err::<ProgramInstruction, GameError>(
                GameError::InvalidParameters,
            ),
            instruction_data@.len() > 0 ==> match instruction_from_code(instruction_data@[0]) {
                Some(i) => r == Ok::<ProgramInstruction, GameError>(i),
                None => r == Err::<ProgramInstruction, GameError>(GameError::InvalidParameters),
            },
    {
        if instruction_data.len() == 0 {
            return Err(GameError::InvalidParameters);
        }
        ProgramInstruction::from_u8(instruction_data[0])
    }
}

/// All `n` bytes zero.
pub open spec fn zeroed(n: nat) -> Seq<u8> {
    Seq::new(n, |i: int| 0u8)
}

/// Sets every byte of `data` to zero.
pub fn erase(data: &mut [u8])
    ensures
        final(data)@ == zeroed(old(data)@.len()),
{
    let len: usize = data.len();
    let mut i: usize = 0;
    while i < len
        invariant
            i <= len,
            data@.len() == len,
            forall|j: int| 0 <= j < i ==> data@[j] == 0u8,
        decreases len - i,
    {
        data[i] = 0;
        i = i + 1;
    }
    assert(data@ =~= zeroed(len as nat));
}

/// Whether `key` is the system program's address (all zero bytes).
pub open spec fn is_system_id(key: Pubkey) -> bool {
    key@ == zeroed(32)
}

} // verus!
