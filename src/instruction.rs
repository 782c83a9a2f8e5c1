use vstd::prelude::*;

use crate::error::GameError;

verus! {

/// The operations of the game, by their one-byte code.
#[derive(Clone, Copy, Debug, PartialEq, Eq, Structural)]
pub enum ProgramInstruction {
    CreateGame,
    Participate,
    Reveal,
    End,
    Delete,
}

/// The operation that a one-byte code names, if any.
pub open spec fn instruction_from_code(code: u8) -> Option<ProgramInstruction> {
    if code == 0 {
        Some(ProgramInstruction::CreateGame)
    } else if code == 1 {
        Some(ProgramInstruction::Participate)
    } else if code == 2 {
        Some(ProgramInstruction::Reveal)
    } else if code == 3 {
        Some(ProgramInstruction::End)
    } else if code == 4 {
        Some(ProgramInstruction::Delete)
    } else {
        None
    }
}

impl ProgramInstruction {
    /// The operation named by `code`; unknown codes are refused.
    pub fn from_u8(code: u8) -> (r: Result<ProgramInstruction, GameError>)
        ensures
            match instruction_from_code(code) {
                Some(i) => r == Ok::<ProgramInstruction, GameError>(i),
                None => r == Err::<ProgramInstruction, GameError>(GameError::InvalidParameters),
            },
    {
        match code {
            0 => Ok(ProgramInstruction::CreateGame),
            1 => Ok(ProgramInstruction::Participate),
            2 => Ok(ProgramInstruction::Reveal),
            3 => Ok(ProgramInstruction::End),
            4 => Ok(ProgramInstruction::Delete),
            _ => Err(GameError::InvalidParameters),
        }
    }
}

} // verus!
