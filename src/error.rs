use vstd::prelude::*;

verus! {

/// Why a transition was refused. Every refusal leaves all state untouched.
#[derive(Clone, Copy, Debug, PartialEq, Eq, Structural)]
pub enum GameError {
    /// Unknown level, guess out of range, or a malformed payload.
    InvalidParameters,
    /// The record address does not match the commitment.
    InvalidAddress,
    /// The transition is not allowed in the record's current state.
    IllegalState,
    /// A signer or an account reference does not match the record.
    UnauthorizedCaller,
    /// A payout or a prefund amount does not fit, or would underflow.
    ArithmeticFault,
    /// The stored record bytes do not decode.
    InvalidAccountData,
    /// Fewer account references were supplied than the transition needs.
    NotEnoughAccountKeys,
}

} // verus!
