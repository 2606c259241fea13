use vstd::prelude::*;

verus! {

/// The failure taxonomy. A failed invocation surfaces exactly one of these
/// reasons and leaves every account untouched: the host discards all buffer
/// mutations of an invocation that returns an error.
#[derive(Clone, Copy, Debug, PartialEq, Eq, Structural)]
pub enum ProtocolError {
    /// Wrong account count, wrong buffer size, or an undecodable record.
    MalformedInput,
    /// A required signer is missing, or a claimed derived address does not
    /// match its recomputation from the seed material.
    AuthorizationFailure,
    /// A goal, cap, minimum or deadline check failed.
    InvariantViolation,
    /// A checked addition or multiplication on balances overflowed.
    ArithmeticOverflow,
    /// Not enough funds for an account creation or a transfer.
    ResourceUnavailable,
    /// The token-custody service rejected a transfer: mismatched asset
    /// types or mismatched decimal precision.
    ExternalCallFailure,
    /// The leading discriminator byte selects no operation.
    UnknownInstruction,
}

} // verus!
