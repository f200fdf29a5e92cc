use vstd::prelude::*;
use crate::utils::{Verdict, VoteOption};

verus! {

/// What a successful call reports about itself.
#[derive(Clone, Debug, PartialEq, Eq)]
pub enum Event {
    CreatePoll { creator: String, poll_id: u64, end_height: u64 },
    CastVote { poll_id: u64, my_share: u128, total_amount: u128, voter: String, vote_option: VoteOption },
    CancelVote { poll_id: u64, amount: u128, voter: String, vote_option: VoteOption },
    Vote { poll_id: u64, amount: u128, voter: String, vote_option: VoteOption },
    EndPoll { poll_id: u64, verdict: Verdict },
    ExecutePoll { poll_id: u64 },
    ExecutePollMsgs { poll_id: u64 },
    FailedPoll { poll_id: u64 },
    SnapshotPoll { poll_id: u64, staked_amount: u128 },
    UpdateConfig,
    Delegate { from: String, to: String },
    Undelegate { from: String, to: String },
    Mint { to: String, amount: u128 },
    Exit { from: String, amount: u128 },
    TransferFrom { from: String, to: String, by: String, amount: u128 },
    MintNft { minter: String, token_id: String },
    TransferNft { from: String, to: String, token_id: String },
    ExecuteDao { sender: String, token_id: String },
    Staking { sender: String, share: u128, amount: u128 },
    Withdraw { recipient: String, amount: u128 },
}

/// An instruction for the host to carry out once the call has succeeded.
#[derive(Clone, Debug, PartialEq, Eq)]
pub enum Message {
    /// Have `token` move `amount` of itself to `recipient`.
    Transfer { token: String, recipient: String, amount: u128 },
    /// Call this contract's own entry point that runs the messages of poll
    /// `poll_id`, as a sub-call whose failure is reported under `reply_id`
    /// and undoes the sub-call alone.
    RunPollMessages { contract: String, poll_id: u64, reply_id: u64 },
    /// Call `contract` with the payload `msg`.
    Execute { contract: String, msg: Vec<u8> },
    /// Hand the payload `msg` to the governance `contract` on behalf of the
    /// member whose token `token_id` is, as sent by `sender`.
    ReceiveNft { contract: String, sender: String, token_id: String, msg: Vec<u8> },
}

/// The outcome of a successful call: what happened, and what the host is to
/// do next.
#[derive(Clone, Debug, PartialEq, Eq)]
pub struct Response {
    pub event: Event,
    pub messages: Vec<Message>,
}

impl Response {
    /// A response that asks nothing of the host.
    pub fn of(event: Event) -> (r: Response)
        ensures
            r.event == event,
            r.messages@.len() == 0,
    {
        Response { event, messages: Vec::new() }
    }
}

impl Verdict {
    /// Whether the poll passed.
    pub fn passed(&self) -> (b: bool)
        ensures
            b == (*self == Verdict::Passed),
    {
        match self {
            Verdict::Passed => true,
            _ => false,
        }
    }

    /// The reason given for a rejection; empty for a poll that passed.
    pub fn rejected_reason(&self) -> (s: &'static str)
        ensures
            s@ == match *self {
                Verdict::Passed => ""@,
                Verdict::QuorumNotReached => "Quorum not reached"@,
                Verdict::ThresholdNotReached => "Threshold not reached"@,
            },
    {
        match self {
            Verdict::Passed => "",
            Verdict::QuorumNotReached => "Quorum not reached",
            Verdict::ThresholdNotReached => "Threshold not reached",
        }
    }
}

} // verus!
