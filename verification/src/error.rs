use vstd::prelude::*;

verus! {

/// The errors this library reports. Instruction-level failures carry the
/// engine's own failure detail; transaction failures add the zero-based
/// index of the failing instruction.
#[derive(Debug)]
pub enum MolluskHelperError {
    InstructionFailed(solana_instruction::error::InstructionError),
    ProgramError(solana_program_error::ProgramError),
    TransactionFailed { index: usize, error: solana_instruction::error::InstructionError },
    AccountNotFound(String),
    KeypairNotFound(String),
    LockError,
}

} // verus!
