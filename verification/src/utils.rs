use vstd::prelude::*;
use crate::decimal::{Decimal, ratio_atomics};
use crate::error::{ContractError, StdError, ValidateError};

verus! {

/// Fewest bytes in the title of a proposal.
pub const MIN_TITLE_LENGTH: usize = 4;

/// Most bytes in the title of a proposal.
pub const MAX_TITLE_LENGTH: usize = 64;

/// Fewest bytes in the description of a proposal.
pub const MIN_DESC_LENGTH: usize = 4;

/// Most bytes in the description of a proposal.
pub const MAX_DESC_LENGTH: usize = 1024;

/// Fewest bytes in the link of a proposal, if it has one.
pub const MIN_LINK_LENGTH: usize = 12;

/// Most bytes in the link of a proposal.
pub const MAX_LINK_LENGTH: usize = 128;

/// Most entries a range scan hands out at once.
pub const MAX_LIMIT: u32 = 30;

/// Entries a range scan hands out when the caller names no limit.
pub const DEFAULT_LIMIT: u32 = 10;

/// Where a poll stands in its life.
#[derive(Clone, Copy, Debug, PartialEq, Eq, Structural)]
pub enum PollStatus {
    InProgress,
    Passed,
    Rejected,
    Executed,
}

/// The side a vote takes.
#[derive(Clone, Copy, Debug, PartialEq, Eq, Structural)]
pub enum VoteOption {
    Yes,
    No,
}

/// A cast vote: the side taken and the weight behind it.
#[derive(Clone, Copy, Debug, PartialEq, Eq, Structural)]
pub struct VoteInfo {
    pub vote: VoteOption,
    pub balance: u128,
}

/// Direction of a range scan.
#[derive(Clone, Copy, Debug, PartialEq, Eq, Structural)]
pub enum OrderBy {
    Asc,
    Desc,
}

/// How a finished vote count came out.
#[derive(Clone, Copy, Debug, PartialEq, Eq, Structural)]
pub enum Verdict {
    Passed,
    QuorumNotReached,
    ThresholdNotReached,
}

/// Whether `after` can be reached from `before` along InProgress -> Passed
/// -> Executed or InProgress -> Rejected, in any number of steps. Nothing
/// moves backwards, and nothing leaves Rejected or Executed.
pub open spec fn status_may_follow(before: PollStatus, after: PollStatus) -> bool {
    ||| before == after
    ||| before == PollStatus::InProgress
    ||| before == PollStatus::Passed && after == PollStatus::Executed
}

/// Length of a text in bytes of UTF-8, as `str::len` reports it.
pub open spec fn byte_len(text: Seq<char>) -> usize {
    vstd::utf8::encode_utf8(text).len() as usize
}

/// Whether a text of `len` bytes lies outside `[min, max]`, and on which side.
pub open spec fn length_error(len: nat, min: nat, max: nat, short: ValidateError, long: ValidateError)
    -> Option<ValidateError> {
    if len < min {
        Some(short)
    } else if len > max {
        Some(long)
    } else {
        None
    }
}

/// What is wrong with the length of a title, if anything.
pub open spec fn title_error(title: Seq<char>) -> Option<ValidateError> {
    length_error(
        byte_len(title) as nat,
        MIN_TITLE_LENGTH as nat,
        MAX_TITLE_LENGTH as nat,
        ValidateError::TitleTooShort,
        ValidateError::TitleTooLong,
    )
}

/// What is wrong with the length of a description, if anything.
pub open spec fn description_error(description: Seq<char>) -> Option<ValidateError> {
    length_error(
        byte_len(description) as nat,
        MIN_DESC_LENGTH as nat,
        MAX_DESC_LENGTH as nat,
        ValidateError::DescriptionTooShort,
        ValidateError::DescriptionTooLong,
    )
}

/// What is wrong with the length of a link, if there is a link and anything
/// is wrong.
pub open spec fn link_error(link: Option<Seq<char>>) -> Option<ValidateError> {
    match link {
        Some(l) => length_error(
            byte_len(l) as nat,
            MIN_LINK_LENGTH as nat,
            MAX_LINK_LENGTH as nat,
            ValidateError::LinkTooShort,
            ValidateError::LinkTooLong,
        ),
        None => None,
    }
}

/// The text of an optional string.
pub open spec fn opt_view(s: Option<String>) -> Option<Seq<char>> {
    match s {
        Some(t) => Some(t@),
        None => None,
    }
}

/// A copy of an optional string.
pub fn clone_opt(s: &Option<String>) -> (r: Option<String>)
    ensures
        r == *s,
{
    match s {
        Some(t) => Some(t.clone()),
        None => None,
    }
}

/// The first complaint about a proposal's texts, title first, then
/// description, then link.
pub open spec fn text_error(
    title: Seq<char>,
    description: Seq<char>,
    link: Option<Seq<char>>,
) -> Option<ValidateError> {
    if title_error(title) is Some {
        title_error(title)
    } else if description_error(description) is Some {
        description_error(description)
    } else {
        link_error(link)
    }
}

/// Accepts a title of 4 to 64 bytes.
pub fn validate_title(title: &str) -> (r: Result<(), ContractError>)
    ensures
        match title_error(title@) {
            Some(e) => r == Err::<(), ContractError>(ContractError::ValidateMsg(e)),
            None => r is Ok,
        },
{
    let n = title.len();
    if n < MIN_TITLE_LENGTH {
        Err(ContractError::ValidateMsg(ValidateError::TitleTooShort))
    } else if n > MAX_TITLE_LENGTH {
        Err(ContractError::ValidateMsg(ValidateError::TitleTooLong))
    } else {
        Ok(())
    }
}

/// Accepts a description of 4 to 1024 bytes.
pub fn validate_description(description: &str) -> (r: Result<(), ContractError>)
    ensures
        match description_error(description@) {
            Some(e) => r == Err::<(), ContractError>(ContractError::ValidateMsg(e)),
            None => r is Ok,
        },
{
    let n = description.len();
    if n < MIN_DESC_LENGTH {
        Err(ContractError::ValidateMsg(ValidateError::DescriptionTooShort))
    } else if n > MAX_DESC_LENGTH {
        Err(ContractError::ValidateMsg(ValidateError::DescriptionTooLong))
    } else {
        Ok(())
    }
}

/// Accepts an absent link, or one of 12 to 128 bytes.
pub fn validate_link(link: &Option<String>) -> (r: Result<(), ContractError>)
    ensures
        match link_error(opt_view(*link)) {
            Some(e) => r == Err::<(), ContractError>(ContractError::ValidateMsg(e)),
            None => r is Ok,
        },
{
    match link {
        Some(l) => {
            let n = l.as_str().len();
            if n < MIN_LINK_LENGTH {
                Err(ContractError::ValidateMsg(ValidateError::LinkTooShort))
            } else if n > MAX_LINK_LENGTH {
                Err(ContractError::ValidateMsg(ValidateError::LinkTooLong))
            } else {
                Ok(())
            }
        },
        None => Ok(()),
    }
}

/// Checks title, description and link in that order.
pub fn validate_texts(title: &str, description: &str, link: &Option<String>) -> (r: Result<
    (),
    ContractError,
>)
    ensures
        match text_error(title@, description@, opt_view(*link)) {
            Some(e) => r == Err::<(), ContractError>(ContractError::ValidateMsg(e)),
            None => r is Ok,
        },
{
    match validate_title(title) {
        Err(e) => { return Err(e); },
        Ok(_) => {},
    }
    match validate_description(description) {
        Err(e) => { return Err(e); },
        Ok(_) => {},
    }
    validate_link(link)
}

/// The rule that settles a poll. `staked` is the weight the turnout is
/// measured against, absent when no share exists at all (turnout then counts
/// as zero). Quorum is missed when nothing was tallied or the turnout lies
/// under `quorum`; otherwise the poll passes when the share of yes votes lies
/// strictly above `threshold`.
pub open spec fn verdict_spec(
    yes: u128,
    no: u128,
    staked: Option<u128>,
    quorum: Decimal,
    threshold: Decimal,
) -> Result<Verdict, StdError> {
    let tallied = yes + no;
    if tallied > u128::MAX {
        Err(StdError::Overflow)
    } else {
        let turnout = match staked {
            None => Some(0u128),
            Some(s) => ratio_atomics(tallied as u128, s),
        };
        match turnout {
            None => if staked == Some(0u128) {
                Err(StdError::DivideByZero)
            } else {
                Err(StdError::Overflow)
            },
            Some(t) => if tallied == 0 || t < quorum.atomics {
                Ok(Verdict::QuorumNotReached)
            } else if (yes * crate::decimal::DECIMAL_FRACTIONAL) / tallied
                > threshold.atomics {
                Ok(Verdict::Passed)
            } else {
                Ok(Verdict::ThresholdNotReached)
            },
        }
    }
}

/// Settles a vote count by `verdict_spec`.
pub fn verdict(yes: u128, no: u128, staked: Option<u128>, quorum: Decimal, threshold: Decimal) -> (r:
    Result<Verdict, StdError>)
    ensures
        r == verdict_spec(yes, no, staked, quorum, threshold),
{
    let tallied = match yes.checked_add(no) {
        Some(t) => t,
        None => { return Err(StdError::Overflow); },
    };
    let turnout = match staked {
        None => Decimal::zero(),
        Some(s) => match Decimal::checked_from_ratio(tallied, s) {
            Some(d) => d,
            None => {
                if s == 0 {
                    return Err(StdError::DivideByZero);
                } else {
                    return Err(StdError::Overflow);
                }
            },
        },
    };
    if tallied == 0 || turnout.atomics < quorum.atomics {
        return Ok(Verdict::QuorumNotReached);
    }
    proof {
        let f = crate::decimal::DECIMAL_FRACTIONAL as int;
        assert((yes * f) / (tallied as int) <= f) by (nonlinear_arith)
            requires
                0 <= yes <= tallied,
                tallied > 0,
                f >= 0,
        ;
    }
    match Decimal::checked_from_ratio(yes, tallied) {
        Some(support) => {
            if support.atomics > threshold.atomics {
                Ok(Verdict::Passed)
            } else {
                Ok(Verdict::ThresholdNotReached)
            }
        },
        None => Ok(Verdict::ThresholdNotReached),
    }
}

} // verus!
