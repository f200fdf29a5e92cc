use vstd::prelude::*;
use crate::accounting::{Ballot, has_lock, Holder, sum_shares};
use crate::decimal::Decimal;
use crate::math::isqrt_spec;
use crate::table::{distinct_keys, has_key, Table};
use crate::utils::{PollStatus, status_may_follow, VoteInfo};

verus! {

/// Settings of the membership governance, changed by the owner alone.
#[derive(Clone, Debug, PartialEq, Eq)]
pub struct Config {
    pub owner: String,
    pub cw721_token: String,
    pub quorum: Decimal,
    pub threshold: Decimal,
    pub voting_period: u64,
}

/// Running totals of the membership governance.
#[derive(Clone, Debug, PartialEq, Eq)]
pub struct State {
    pub contract_addr: String,
    pub poll_count: u64,
    pub total_share: u128,
}

/// A proposal with its tallies.
#[derive(Clone, Debug, PartialEq, Eq)]
pub struct Poll {
    pub id: u64,
    pub creator: String,
    pub status: PollStatus,
    pub yes_votes: u128,
    pub no_votes: u128,
    pub end_height: u64,
    pub title: String,
    pub description: String,
    pub link: Option<String>,
    pub total_share_at_start_poll: u128,
    pub total_share_at_end_poll: Option<u128>,
}

/// What the bank keeps for one member.
#[derive(Clone, Debug, PartialEq, Eq)]
pub struct TokenManager {
    pub share: u128,
    pub balance: u128,
    pub locked_share: Vec<(u64, VoteInfo)>,
    pub delegate_to: Option<String>,
    pub delegated_from: Vec<String>,
}

impl Ballot for Poll {
    open spec fn ballot_status(&self) -> PollStatus {
        self.status
    }

    fn current_status(&self) -> (s: PollStatus) {
        self.status
    }
}

impl Holder for TokenManager {
    open spec fn holding(&self) -> u128 {
        self.share
    }
}

/// A member's bank entry as plain values.
pub struct Member {
    pub share: u128,
    pub balance: u128,
    pub locked_share: Seq<(u64, VoteInfo)>,
    pub delegate_to: Option<Seq<char>>,
    pub delegated_from: Seq<Seq<char>>,
}

/// The texts of a list of strings.
pub open spec fn texts(names: Seq<String>) -> Seq<Seq<char>> {
    Seq::new(names.len(), |i: int| names[i]@)
}

impl Member {
    /// The entry of a member the bank has never seen.
    pub open spec fn empty() -> Member {
        Member {
            share: 0,
            balance: 0,
            locked_share: Seq::empty(),
            delegate_to: None,
            delegated_from: Seq::empty(),
        }
    }
}

impl View for TokenManager {
    type V = Member;

    open spec fn view(&self) -> Member {
        Member {
            share: self.share,
            balance: self.balance,
            locked_share: self.locked_share@,
            delegate_to: crate::utils::opt_view(self.delegate_to),
            delegated_from: texts(self.delegated_from@),
        }
    }
}

impl TokenManager {
    /// A zero entry.
    pub fn new() -> (tm: TokenManager)
        ensures
            tm@ == Member::empty(),
            tm.delegate_to is None,
            tm.delegated_from@.len() == 0,
            tm.locked_share@.len() == 0,
    {
        let tm = TokenManager {
            share: 0,
            balance: 0,
            locked_share: Vec::new(),
            delegate_to: None,
            delegated_from: Vec::new(),
        };
        assert(tm@.delegated_from =~= Seq::empty());
        tm
    }
}

/// What holds of every bank entry: the share is the integer square root of the
/// balance, every lock names a poll that exists and carries a weight within
/// 64 bits, and nobody is listed twice as delegating.
pub open spec fn entry_ok(tm: TokenManager, poll_count: u64) -> bool {
    &&& tm.share as nat == isqrt_spec(tm.balance as nat)
    &&& forall|j: int|
        0 <= j < tm.locked_share@.len() ==> 1 <= (#[trigger] tm.locked_share@[j]).0 <= poll_count
            && tm.locked_share@[j].1.balance <= u64::MAX
    &&& distinct_keys(tm.delegated_from@)
}

/// Everything the membership governance keeps: settings, totals, the polls in
/// order of their ids, the votes cast in each poll, and the bank.
#[derive(Clone, Debug, PartialEq, Eq)]
pub struct Store {
    pub config: Config,
    pub state: State,
    pub polls: Vec<Poll>,
    pub poll_voters: Vec<Table<VoteInfo>>,
    pub bank: Table<TokenManager>,
}

impl Store {
    /// The bank entry under `key`, or the zero entry.
    pub open spec fn member(&self, key: Seq<char>) -> Member {
        match self.bank.get(key) {
            Some(tm) => tm@,
            None => Member::empty(),
        }
    }

    /// The vote recorded for `key` in poll `poll_id`, if any.
    pub open spec fn voter(&self, poll_id: u64, key: Seq<char>) -> Option<VoteInfo> {
        if 1 <= poll_id <= self.poll_voters@.len() {
            self.poll_voters@[poll_id - 1].get(key)
        } else {
            None
        }
    }

    /// The poll with id `poll_id`.
    pub open spec fn poll(&self, poll_id: u64) -> Poll
        recommends
            1 <= poll_id <= self.polls@.len(),
    {
        self.polls@[poll_id - 1]
    }

    /// Whether poll `poll_id` exists and is in progress.
    pub open spec fn in_progress(&self, poll_id: u64) -> bool {
        1 <= poll_id <= self.polls@.len() && self.poll(poll_id).status == PollStatus::InProgress
    }

    /// Polls are numbered from 1 in the order they were made, and each has
    /// its table of votes.
    pub open spec fn polls_ok(&self) -> bool {
        &&& self.polls@.len() == self.state.poll_count
        &&& self.poll_voters@.len() == self.polls@.len()
        &&& forall|i: int| 0 <= i < self.polls@.len() ==> (#[trigger] self.polls@[i]).id == i + 1
        &&& forall|i: int| 0 <= i < self.poll_voters@.len() ==> (#[trigger] self.poll_voters@[i]).wf()
    }

    /// The bank holds one well-formed entry per member, and the total share
    /// is the sum of the members' shares.
    pub open spec fn bank_ok(&self) -> bool {
        &&& self.bank.wf()
        &&& forall|i: int|
            0 <= i < self.bank.vals@.len() ==> entry_ok(
                #[trigger] self.bank.vals@[i],
                self.state.poll_count,
            )
        &&& self.state.total_share as nat == sum_shares(self.bank.vals@)
    }

    /// Delegation links agree in both directions: who delegates is listed by
    /// the delegate, and who is listed delegates to the one that lists.
    pub open spec fn delegation_ok(&self) -> bool {
        &&& forall|i: int|
            0 <= i < self.bank.vals@.len() && (#[trigger] self.bank.vals@[i]).delegate_to is Some
                ==> {
                let d = self.bank.vals@[i].delegate_to->0@;
                self.bank.has(d) && has_key(
                    self.bank.vals@[self.bank.index_of(d)].delegated_from@,
                    self.bank.keys@[i]@,
                )
            }
        &&& forall|i: int, j: int|
            0 <= i < self.bank.vals@.len() && 0 <= j < self.bank.vals@[i].delegated_from@.len()
                ==> {
                let a = (#[trigger] self.bank.vals@[i].delegated_from@[j])@;
                self.bank.has(a) && self.member(a).delegate_to == Some(self.bank.keys@[i]@)
            }
    }

    /// Whoever has a vote on record in a poll in progress holds a lock on
    /// that poll.
    pub open spec fn records_ok(&self) -> bool {
        forall|p: int, r: int|
            0 <= p < self.polls@.len() && self.polls@[p].status == PollStatus::InProgress && 0 <= r
                < self.poll_voters@[p].keys@.len() ==> has_lock(
                self.member((#[trigger] self.poll_voters@[p].keys@[r])@).locked_share,
                (p + 1) as u64,
            )
    }

    /// Quorum and threshold lie in `[0, 1]`.
    pub open spec fn config_ok(&self) -> bool {
        self.config.quorum.is_fraction() && self.config.threshold.is_fraction()
    }

    /// The invariant of the membership governance.
    pub open spec fn inv(&self) -> bool {
        &&& self.config_ok()
        &&& self.polls_ok()
        &&& self.bank_ok()
        &&& self.delegation_ok()
        &&& self.records_ok()
    }
}

/// How the polls of a later store relate to those of an earlier one: none is
/// lost or renumbered, none ends later or earlier than announced, and every
/// status has stayed or moved forward.
pub open spec fn advances(pre: Store, post: Store) -> bool {
    &&& pre.polls@.len() <= post.polls@.len()
    &&& forall|i: int|
        0 <= i < pre.polls@.len() ==> {
            &&& (#[trigger] post.polls@[i]).id == pre.polls@[i].id
            &&& post.polls@[i].end_height == pre.polls@[i].end_height
            &&& status_may_follow(pre.polls@[i].status, post.polls@[i].status)
        }
}

/// No tally of a poll of the earlier store is smaller in the later one. This
/// holds across every call but the taking back of a vote.
pub open spec fn no_tally_shrunk(pre: Store, post: Store) -> bool {
    &&& pre.polls@.len() <= post.polls@.len()
    &&& forall|i: int|
        0 <= i < pre.polls@.len() ==> pre.polls@[i].yes_votes <= (#[trigger] post.polls@[i]).yes_votes
            && pre.polls@[i].no_votes <= post.polls@[i].no_votes
}

} // verus!
