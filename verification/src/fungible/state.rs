use vstd::prelude::*;
use crate::accounting::{Ballot, Holder, sum_shares};
use crate::decimal::Decimal;
use crate::msg::PollExecuteMsg;
use crate::table::Table;
use crate::utils::{PollStatus, status_may_follow, VoteInfo};

verus! {

/// Settings of the token governance, changed by the owner alone.
#[derive(Clone, Debug, PartialEq, Eq)]
pub struct Config {
    pub owner: String,
    pub cw20_token: String,
    pub quorum: Decimal,
    pub threshold: Decimal,
    pub voting_period: u64,
    pub timelock_period: u64,
    pub proposal_deposit: u128,
    pub snapshot_period: u64,
}

/// Running totals of the token governance.
#[derive(Clone, Debug, PartialEq, Eq)]
pub struct State {
    pub contract_addr: String,
    pub poll_count: u64,
    pub total_share: u128,
    pub total_deposit: u128,
}

/// A proposal with its tallies, its deposit and the messages it sends once
/// it is executed.
#[derive(Clone, Debug, PartialEq, Eq)]
pub struct Poll {
    pub id: u64,
    pub creator: String,
    pub status: PollStatus,
    pub yes_votes: u128,
    pub no_votes: u128,
    pub end_height: u64,
    pub title: String,
    pub description: String,
    pub link: Option<String>,
    pub execute_data: Option<Vec<PollExecuteMsg>>,
    pub deposit_amount: u128,
    pub total_balance_at_end_poll: Option<u128>,
    pub staked_amount: Option<u128>,
}

/// What the bank keeps for one staker.
#[derive(Clone, Debug, PartialEq, Eq)]
pub struct TokenManager {
    pub share: u128,
    pub locked_balance: Vec<(u64, VoteInfo)>,
}

impl Ballot for Poll {
    open spec fn ballot_status(&self) -> PollStatus {
        self.status
    }

    fn current_status(&self) -> (s: PollStatus) {
        self.status
    }
}

impl Holder for TokenManager {
    open spec fn holding(&self) -> u128 {
        self.share
    }
}

/// A staker's bank entry as plain values.
pub struct Staker {
    pub share: u128,
    pub locked_balance: Seq<(u64, VoteInfo)>,
}

impl Staker {
    /// The entry of a staker the bank has never seen.
    pub open spec fn empty() -> Staker {
        Staker { share: 0, locked_balance: Seq::empty() }
    }
}

impl View for TokenManager {
    type V = Staker;

    open spec fn view(&self) -> Staker {
        Staker { share: self.share, locked_balance: self.locked_balance@ }
    }
}

impl TokenManager {
    /// A zero entry.
    pub fn new() -> (tm: TokenManager)
        ensures
            tm@ == Staker::empty(),
    {
        TokenManager { share: 0, locked_balance: Vec::new() }
    }
}

/// Sum of the deposits of the polls that are in progress.
pub open spec fn sum_deposits(polls: Seq<Poll>) -> nat
    decreases polls.len(),
{
    if polls.len() == 0 {
        0
    } else if polls.last().status == PollStatus::InProgress {
        sum_deposits(polls.drop_last()) + polls.last().deposit_amount as nat
    } else {
        sum_deposits(polls.drop_last())
    }
}

/// Everything the token governance keeps: settings, totals, the polls in
/// order of their ids, the votes cast in each poll, the bank, and the id of
/// the poll whose messages were last sent off.
#[derive(Clone, Debug, PartialEq, Eq)]
pub struct Store {
    pub config: Config,
    pub state: State,
    pub polls: Vec<Poll>,
    pub poll_voters: Vec<Table<VoteInfo>>,
    pub bank: Table<TokenManager>,
    pub tmp_poll_id: u64,
}

impl Store {
    /// The bank entry under `key`, or the zero entry.
    pub open spec fn staker(&self, key: Seq<char>) -> Staker {
        match self.bank.get(key) {
            Some(tm) => tm@,
            None => Staker::empty(),
        }
    }

    /// The vote recorded for `key` in poll `poll_id`, if any.
    pub open spec fn voter(&self, poll_id: u64, key: Seq<char>) -> Option<VoteInfo> {
        if 1 <= poll_id <= self.poll_voters@.len() {
            self.poll_voters@[poll_id - 1].get(key)
        } else {
            None
        }
    }

    /// The poll with id `poll_id`.
    pub open spec fn poll(&self, poll_id: u64) -> Poll
        recommends
            1 <= poll_id <= self.polls@.len(),
    {
        self.polls@[poll_id - 1]
    }

    /// Whether poll `poll_id` exists and is in progress.
    pub open spec fn in_progress(&self, poll_id: u64) -> bool {
        1 <= poll_id <= self.polls@.len() && self.poll(poll_id).status == PollStatus::InProgress
    }

    /// Polls are numbered from 1 in the order they were made, and each has
    /// its table of votes.
    pub open spec fn polls_ok(&self) -> bool {
        &&& self.polls@.len() == self.state.poll_count
        &&& self.poll_voters@.len() == self.polls@.len()
        &&& forall|i: int| 0 <= i < self.polls@.len() ==> (#[trigger] self.polls@[i]).id == i + 1
        &&& forall|i: int| 0 <= i < self.poll_voters@.len() ==> (#[trigger] self.poll_voters@[i]).wf()
    }

    /// The bank holds one entry per staker, every lock names a poll that
    /// exists, and the total share is the sum of the stakers' shares.
    pub open spec fn bank_ok(&self) -> bool {
        &&& self.bank.wf()
        &&& forall|i: int, j: int|
            0 <= i < self.bank.vals@.len() && 0 <= j < self.bank.vals@[i].locked_balance@.len() ==> 1
                <= (#[trigger] self.bank.vals@[i].locked_balance@[j]).0 <= self.state.poll_count
        &&& self.state.total_share as nat == sum_shares(self.bank.vals@)
    }

    /// The total deposit is the sum of the deposits of the polls in
    /// progress.
    pub open spec fn deposits_ok(&self) -> bool {
        self.state.total_deposit as nat == sum_deposits(self.polls@)
    }

    /// Quorum and threshold lie in `[0, 1]`.
    pub open spec fn config_ok(&self) -> bool {
        self.config.quorum.is_fraction() && self.config.threshold.is_fraction()
    }

    /// The invariant of the token governance.
    pub open spec fn inv(&self) -> bool {
        &&& self.config_ok()
        &&& self.polls_ok()
        &&& self.bank_ok()
        &&& self.deposits_ok()
    }
}

/// How the polls of a later store relate to those of an earlier one: none is
/// lost or renumbered, none ends later or earlier than announced, every
/// status has stayed or moved forward, and no tally has shrunk.
pub open spec fn advances(pre: Store, post: Store) -> bool {
    &&& pre.polls@.len() <= post.polls@.len()
    &&& forall|i: int|
        0 <= i < pre.polls@.len() ==> {
            &&& (#[trigger] post.polls@[i]).id == pre.polls@[i].id
            &&& post.polls@[i].end_height == pre.polls@[i].end_height
            &&& status_may_follow(pre.polls@[i].status, post.polls@[i].status)
            &&& pre.polls@[i].yes_votes <= post.polls@[i].yes_votes
            &&& pre.polls@[i].no_votes <= post.polls@[i].no_votes
        }
}

/// Sum of deposits after one more poll.
pub proof fn lemma_deposits_push(polls: Seq<Poll>, poll: Poll)
    ensures
        sum_deposits(polls.push(poll)) == sum_deposits(polls) + if poll.status
            == PollStatus::InProgress {
            poll.deposit_amount as nat
        } else {
            0
        },
{
    assert(polls.push(poll).drop_last() =~= polls);
}

/// Replacing one poll moves the sum of deposits by what the two polls count
/// for.
pub proof fn lemma_deposits_update(polls: Seq<Poll>, i: int, poll: Poll)
    requires
        0 <= i < polls.len(),
    ensures
        sum_deposits(polls.update(i, poll)) == sum_deposits(polls) - counted(polls[i]) + counted(
            poll,
        ),
        sum_deposits(polls) >= counted(polls[i]),
    decreases polls.len(),
{
    let after = polls.update(i, poll);
    if i == polls.len() - 1 {
        assert(after.drop_last() =~= polls.drop_last());
    } else {
        lemma_deposits_update(polls.drop_last(), i, poll);
        assert(after.drop_last() =~= polls.drop_last().update(i, poll));
    }
}

/// What a poll counts for in the total deposit: its deposit while it is in
/// progress, nothing afterwards.
pub open spec fn counted(poll: Poll) -> nat {
    if poll.status == PollStatus::InProgress {
        poll.deposit_amount as nat
    } else {
        0
    }
}

} // verus!
