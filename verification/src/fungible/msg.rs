use vstd::prelude::*;
use crate::decimal::Decimal;
use crate::msg::Cw20HookMsg;
use crate::utils::{OrderBy, PollStatus, VoteOption};

verus! {

/// What sets the token governance up.
#[derive(Clone, Debug, PartialEq, Eq)]
pub struct InstantiateMsg {
    pub cw20_token: String,
    pub quorum: Decimal,
    pub threshold: Decimal,
    pub voting_period: u64,
    pub timelock_period: u64,
    pub proposal_deposit: u128,
    pub snapshot_period: u64,
}

/// What the voting token forwards when tokens are sent to the governance:
/// who sent them, how many, and the payload, absent when it could not be
/// read.
#[derive(Clone, Debug, PartialEq, Eq)]
pub struct Cw20ReceiveMsg {
    pub sender: String,
    pub amount: u128,
    pub msg: Option<Cw20HookMsg>,
}

/// The calls the token governance takes.
#[derive(Clone, Debug, PartialEq, Eq)]
pub enum ExecuteMsg {
    Receive(Cw20ReceiveMsg),
    ExecutePollMsgs { poll_id: u64 },
    UpdateConfig {
        owner: Option<String>,
        cw20_token: Option<String>,
        quorum: Option<Decimal>,
        threshold: Option<Decimal>,
        voting_period: Option<u64>,
        timelock_period: Option<u64>,
        proposal_deposit: Option<u128>,
        snapshot_period: Option<u64>,
    },
    CastVote { poll_id: u64, vote: VoteOption, amount: u128 },
    WithdrawVotingTokens { amount: Option<u128> },
    EndPoll { poll_id: u64 },
    ExecutePoll { poll_id: u64 },
    SnapshotPoll { poll_id: u64 },
}

/// The questions the token governance answers.
#[derive(Clone, Debug, PartialEq, Eq)]
pub enum QueryMsg {
    Config {  },
    State {  },
    Staker { address: String },
    Poll { poll_id: u64 },
    Polls {
        filter: Option<PollStatus>,
        start_after: Option<u64>,
        limit: Option<u32>,
        order_by: Option<OrderBy>,
    },
    Voters {
        poll_id: u64,
        start_after: Option<String>,
        limit: Option<u32>,
        order_by: Option<OrderBy>,
    },
}

} // verus!
