use vstd::prelude::*;

verus! {

/// Arithmetic that left the range of its type.
#[derive(Clone, Copy, Debug, PartialEq, Eq, Structural)]
pub enum StdError {
    /// A sum, product or quotient does not fit its integer type.
    Overflow,
    /// A ratio was taken over zero.
    DivideByZero,
    /// A quorum outside `[0, 1]`.
    QuorumOutOfRange,
    /// A threshold outside `[0, 1]`.
    ThresholdOutOfRange,
    /// Something that was looked up is not there.
    NotFound,
    /// A reply to a sub-call that was never made.
    InvalidReplyId,
}

/// Why a proposal's text was refused.
#[derive(Clone, Copy, Debug, PartialEq, Eq, Structural)]
pub enum ValidateError {
    TitleTooShort,
    TitleTooLong,
    DescriptionTooShort,
    DescriptionTooLong,
    LinkTooShort,
    LinkTooLong,
}

/// Every way a governance call can be refused. A refused call leaves the
/// state as it was.
#[derive(Clone, Copy, Debug, PartialEq, Eq, Structural)]
pub enum ContractError {
    Std(StdError),
    ValidateMsg(ValidateError),
    Unauthorized,
    PollNotFound,
    PollNotInProgress,
    PollNotPassed,
    PollVotingPeriod,
    TimelockNotExpired,
    SnapshotHeight,
    SnapshotAlreadyOccurred,
    AlreadyVoted,
    NotYetVoted,
    AlreadyDelegated,
    NotYetDelegated,
    InsufficientFunds,
    InsufficientProposalDeposit(u128),
    InvalidWithdrawAmount,
    NothingStaked,
    DataShouldBeGiven,
}

} // verus!
