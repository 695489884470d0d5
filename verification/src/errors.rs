use vstd::prelude::*;

verus! {

/// Every way an operation can be refused. Each failure aborts the whole
/// operation: a caller that receives an error knows no state was changed.
#[derive(Clone, Copy, Debug, PartialEq, Eq, Structural)]
pub enum ErrorCode {
    /// A grant of zero tokens, or a claim or revocation of an empty ticket.
    AmountMustBeGreaterThanZero,
    /// The vesting horizon is shorter than the cliff.
    VestingPeriodShouldBeEqualOrLongerThanCliff,
    /// The ticket was already revoked and is terminal.
    TicketRevoked,
    /// The ticket was granted irrevocably.
    TicketIrrevocable,
    /// No custody authority exists for the presented seed material.
    InvalidNonce,
    /// The depositor's vault does not hold the amount being granted.
    NotEnoughTokens,
    /// The presented controller is not the one the seed material derives.
    InvalidProgramInitializer,
    /// An account does not belong to the parties the ticket names.
    AccountMismatch,
    /// The custody-authority proof does not re-derive to the stored identity.
    AuthorityMismatch,
    /// Overflow, underflow or a zero divisor in the release computation.
    ArithmeticFault,
}

} // verus!
