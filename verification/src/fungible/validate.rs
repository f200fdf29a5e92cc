use vstd::prelude::*;
use crate::accounting::sum_shares;
use crate::decimal::DECIMAL_FRACTIONAL;
use crate::fungible::state::{Poll, Store, sum_deposits, TokenManager};
use crate::utils::PollStatus;
use crate::validate::table_valid;

verus! {

/// A prefix of the entries has no larger sum of shares.
proof fn lemma_shares_prefix(vals: Seq<TokenManager>, i: int)
    requires
        0 <= i <= vals.len(),
    ensures
        sum_shares(vals.take(i)) <= sum_shares(vals),
    decreases vals.len() - i,
{
    if i < vals.len() {
        lemma_shares_prefix(vals, i + 1);
        assert(vals.take(i + 1).drop_last() =~= vals.take(i));
    } else {
        assert(vals.take(i) =~= vals);
    }
}

/// A prefix of the polls has no larger sum of deposits.
proof fn lemma_deposits_prefix(polls: Seq<Poll>, i: int)
    requires
        0 <= i <= polls.len(),
    ensures
        sum_deposits(polls.take(i)) <= sum_deposits(polls),
    decreases polls.len() - i,
{
    if i < polls.len() {
        lemma_deposits_prefix(polls, i + 1);
        assert(polls.take(i + 1).drop_last() =~= polls.take(i));
    } else {
        assert(polls.take(i) =~= polls);
    }
}

impl Store {
    /// Whether the polls are numbered from 1 and each has a well-formed
    /// table of votes.
    pub fn polls_valid(&self) -> (b: bool)
        ensures
            b == self.polls_ok(),
    {
        let n = self.polls.len();
        if n as u64 != self.state.poll_count || self.poll_voters.len() != n {
            return false;
        }
        let mut i: usize = 0;
        while i < n
            invariant
                n == self.polls@.len(),
                n == self.poll_voters@.len(),
                n == self.state.poll_count,
                i <= n,
                forall|a: int| 0 <= a < i ==> (#[trigger] self.polls@[a]).id == a + 1,
                forall|a: int| 0 <= a < i ==> (#[trigger] self.poll_voters@[a]).wf(),
            decreases n - i,
        {
            if self.polls[i].id != (i as u64) + 1 || !table_valid(&self.poll_voters[i]) {
                return false;
            }
            i = i + 1;
        }
        true
    }

    /// Whether the bank is well-formed and the total share is the sum of
    /// the shares.
    pub fn bank_valid(&self) -> (b: bool)
        ensures
            b == self.bank_ok(),
    {
        if !table_valid(&self.bank) {
            return false;
        }
        let n = self.bank.vals.len();
        let mut sum: u128 = 0;
        let mut i: usize = 0;
        while i < n
            invariant
                n == self.bank.vals@.len(),
                i <= n,
                forall|a: int, j: int|
                    0 <= a < i && 0 <= j < self.bank.vals@[a].locked_balance@.len() ==> 1 <= (
                    #[trigger] self.bank.vals@[a].locked_balance@[j]).0 <= self.state.poll_count,
                sum == sum_shares(self.bank.vals@.take(i as int)),
            decreases n - i,
        {
            let m = self.bank.vals[i].locked_balance.len();
            let mut j: usize = 0;
            while j < m
                invariant
                    n == self.bank.vals@.len(),
                    i < n,
                    m == self.bank.vals@[i as int].locked_balance@.len(),
                    j <= m,
                    forall|b: int|
                        0 <= b < j ==> 1 <= (#[trigger] self.bank.vals@[i as int].locked_balance@[b]).0
                            <= self.state.poll_count,
                decreases m - j,
            {
                let id = self.bank.vals[i].locked_balance[j].0;
                if id < 1 || id > self.state.poll_count {
                    return false;
                }
                j = j + 1;
            }
            proof {
                let vals = self.bank.vals@;
                assert(vals.take(i + 1).drop_last() =~= vals.take(i as int));
                lemma_shares_prefix(vals, i + 1);
            }
            sum = match sum.checked_add(self.bank.vals[i].share) {
                Some(s) => s,
                None => {
                    return false;
                },
            };
            i = i + 1;
        }
        proof {
            assert(self.bank.vals@.take(n as int) =~= self.bank.vals@);
        }
        sum == self.state.total_share
    }

    /// Whether the total deposit is the sum of the deposits of the polls
    /// in progress.
    pub fn deposits_valid(&self) -> (b: bool)
        ensures
            b == self.deposits_ok(),
    {
        let n = self.polls.len();
        let mut sum: u128 = 0;
        let mut i: usize = 0;
        while i < n
            invariant
                n == self.polls@.len(),
                i <= n,
                sum == sum_deposits(self.polls@.take(i as int)),
            decreases n - i,
        {
            proof {
                let polls = self.polls@;
                assert(polls.take(i + 1).drop_last() =~= polls.take(i as int));
                lemma_deposits_prefix(polls, i + 1);
            }
            if self.polls[i].status == PollStatus::InProgress {
                sum = match sum.checked_add(self.polls[i].deposit_amount) {
                    Some(s) => s,
                    None => {
                        return false;
                    },
                };
            }
            i = i + 1;
        }
        proof {
            assert(self.polls@.take(n as int) =~= self.polls@);
        }
        sum == self.state.total_deposit
    }

    /// Whether the store is consistent: whether `inv` holds of it. A store
    /// that was made by `instantiate` and changed by the calls of this
    /// library alone always is.
    pub fn is_valid(&self) -> (b: bool)
        ensures
            b == self.inv(),
    {
        self.config.quorum.atomics <= DECIMAL_FRACTIONAL && self.config.threshold.atomics
            <= DECIMAL_FRACTIONAL && self.polls_valid() && self.bank_valid()
            && self.deposits_valid()
    }
}

} // verus!
