use vstd::prelude::*;

verus! {

/// The ways a duel invocation can fail. Each aborts the whole invocation.
#[derive(Debug, Clone, Copy, PartialEq, Eq, Structural)]
pub enum DuelError {
    /// The symmetric key or the settlement address has not been stored yet.
    UninitializedState,
    /// A ciphertext did not decrypt to a move set.
    DecryptionFailure,
    /// A signature is malformed or no public key could be recovered from it.
    InvalidSignature,
    /// The two move sets differ in length.
    MoveSetLengthMismatch,
    /// A move set is longer than the table of position weights.
    WeightTableOverflow,
    /// Fewer than two affinity values were supplied.
    AffinityArityError,
}

} // verus!
