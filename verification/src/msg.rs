use vstd::prelude::*;
use crate::decimal::Decimal;
use crate::utils::{OrderBy, PollStatus, VoteOption};

verus! {

/// What sets the membership governance up.
#[derive(Clone, Debug, PartialEq, Eq)]
pub struct InstantiateMsg {
    pub cw721_token: String,
    pub quorum: Decimal,
    pub threshold: Decimal,
    pub voting_period: u64,
}

/// What the membership token forwards on behalf of a member: who sent it,
/// the member's token id, and the payload, absent when it could not be read.
#[derive(Clone, Debug, PartialEq, Eq)]
pub struct Cw721ReceiveMsg {
    pub sender: String,
    pub token_id: String,
    pub msg: Option<Cw721HookMsg>,
}

/// The calls the membership governance takes.
#[derive(Clone, Debug, PartialEq, Eq)]
pub enum ExecuteMsg {
    ReceiveNft(Cw721ReceiveMsg),
    Mint { recipient: String, amount: u128 },
    TransferFrom { owner: String, recipient: String, amount: u128 },
    UpdateConfig {
        owner: Option<String>,
        quorum: Option<Decimal>,
        threshold: Option<Decimal>,
        voting_period: Option<u64>,
    },
}

/// The payloads a member sends through the membership token.
#[derive(Clone, Debug, PartialEq, Eq)]
pub enum Cw721HookMsg {
    Exit {  },
    DelegateVote { delegator: String },
    UnDelegateVote {  },
    CreatePoll { title: String, description: String, link: Option<String> },
    CastVote { poll_id: u64, vote: VoteOption },
    CancelVote { poll_id: u64 },
    EndPoll { poll_id: u64 },
}

/// The questions the membership governance answers.
#[derive(Clone, Debug, PartialEq, Eq)]
pub enum QueryMsg {
    Config {  },
    State {  },
    Member { member_id: String },
    Poll { poll_id: u64 },
    Polls {
        filter: Option<PollStatus>,
        start_after: Option<u64>,
        limit: Option<u32>,
        order_by: Option<OrderBy>,
    },
    Voters {
        poll_id: u64,
        start_after: Option<String>,
        limit: Option<u32>,
        order_by: Option<OrderBy>,
    },
}

/// A message a passed poll sends when it is executed; the messages of a poll
/// go out in ascending `order`.
#[derive(Clone, Debug, PartialEq, Eq)]
pub struct PollExecuteMsg {
    pub order: u64,
    pub contract: String,
    pub msg: Vec<u8>,
}

/// The payloads a holder sends through the voting token.
#[derive(Clone, Debug, PartialEq, Eq)]
pub enum Cw20HookMsg {
    StakeVotingTokens {  },
    CreatePoll {
        title: String,
        description: String,
        link: Option<String>,
        execute_msgs: Option<Vec<PollExecuteMsg>>,
    },
}

} // verus!
