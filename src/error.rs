use vstd::prelude::*;

verus! {

/// The failures an instruction can end in.
#[derive(Debug, Clone, Copy, PartialEq, Eq, Structural)]
pub enum ProcessError {
    /// The instruction bytes are truncated, malformed or carry an unknown tag.
    InvalidInstructionData,
    /// A requested buffer size cannot hold the buffer's header.
    InvalidArgument,
    /// The target buffer is too short for the write.
    AccountDataTooSmall,
    /// The supplied buffer is not the address derived for the creation request.
    InvalidAccountData,
    /// The buffer's address is not the one re-derived from its stored header.
    IllegalOwner,
    /// Fewer accounts were supplied than the instruction reads.
    NotEnoughAccountKeys,
    /// No bump makes the seed tuple a valid derived address.
    InvalidSeeds,
}

} // verus!
