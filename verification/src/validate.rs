use vstd::prelude::*;
use crate::accounting::{has_lock, lemma_sum_bound, sum_shares};
use crate::decimal::DECIMAL_FRACTIONAL;
use crate::math::{isqrt, lemma_isqrt_bound};
use crate::state::{entry_ok, Store, TokenManager};
use crate::table::{distinct_keys, find_key, has_key, Table};
use crate::utils::{PollStatus, VoteInfo};

verus! {

/// Whether no text occurs twice among `keys`.
pub fn keys_distinct(keys: &Vec<String>) -> (b: bool)
    ensures
        b == distinct_keys(keys@),
{
    let n = keys.len();
    let mut j: usize = 0;
    while j < n
        invariant
            n == keys@.len(),
            j <= n,
            forall|a: int, b: int| 0 <= a < b < j ==> (#[trigger] keys@[a])@ != (#[trigger] keys@[b])@,
        decreases n - j,
    {
        let mut i: usize = 0;
        while i < j
            invariant
                n == keys@.len(),
                j < n,
                i <= j,
                forall|a: int| 0 <= a < i ==> (#[trigger] keys@[a])@ != keys@[j as int]@,
            decreases j - i,
        {
            if keys[i] == keys[j] {
                return false;
            }
            i = i + 1;
        }
        j = j + 1;
    }
    true
}

/// Whether a table holds one value per key and no key twice.
pub fn table_valid<V>(table: &Table<V>) -> (b: bool)
    ensures
        b == table.wf(),
{
    table.keys.len() == table.vals.len() && keys_distinct(&table.keys)
}

/// Whether one of `locks` is on poll `poll_id`.
pub fn locks_poll(locks: &Vec<(u64, VoteInfo)>, poll_id: u64) -> (b: bool)
    ensures
        b == has_lock(locks@, poll_id),
{
    let n = locks.len();
    let mut j: usize = 0;
    while j < n
        invariant
            n == locks@.len(),
            j <= n,
            forall|a: int| 0 <= a < j ==> (#[trigger] locks@[a]).0 != poll_id,
        decreases n - j,
    {
        if locks[j].0 == poll_id {
            return true;
        }
        j = j + 1;
    }
    false
}

/// Whether a bank entry is well-formed among `poll_count` polls.
pub fn entry_valid(tm: &TokenManager, poll_count: u64) -> (b: bool)
    ensures
        b == entry_ok(*tm, poll_count),
{
    if tm.share != isqrt(tm.balance) {
        return false;
    }
    let n = tm.locked_share.len();
    let mut j: usize = 0;
    while j < n
        invariant
            n == tm.locked_share@.len(),
            j <= n,
            forall|a: int|
                0 <= a < j ==> 1 <= (#[trigger] tm.locked_share@[a]).0 <= poll_count
                    && tm.locked_share@[a].1.balance <= u64::MAX,
        decreases n - j,
    {
        let lock = tm.locked_share[j];
        if lock.0 < 1 || lock.0 > poll_count || lock.1.balance > u64::MAX as u128 {
            return false;
        }
        j = j + 1;
    }
    keys_distinct(&tm.delegated_from)
}

impl Store {
    /// Whether the polls are numbered from 1 and each has a well-formed
    /// table of votes.
    pub fn polls_valid(&self) -> (b: bool)
        ensures
            b == self.polls_ok(),
    {
        let n = self.polls.len();
        if n as u64 != self.state.poll_count || self.poll_voters.len() != n {
            return false;
        }
        let mut i: usize = 0;
        while i < n
            invariant
                n == self.polls@.len(),
                n == self.poll_voters@.len(),
                n == self.state.poll_count,
                i <= n,
                forall|a: int| 0 <= a < i ==> (#[trigger] self.polls@[a]).id == a + 1,
                forall|a: int| 0 <= a < i ==> (#[trigger] self.poll_voters@[a]).wf(),
            decreases n - i,
        {
            if self.polls[i].id != (i as u64) + 1 || !table_valid(&self.poll_voters[i]) {
                return false;
            }
            i = i + 1;
        }
        true
    }

    /// Whether the bank is well-formed and the total share is the sum of
    /// the shares.
    pub fn bank_valid(&self) -> (b: bool)
        ensures
            b == self.bank_ok(),
    {
        if !table_valid(&self.bank) {
            return false;
        }
        let n = self.bank.vals.len();
        let mut sum: u128 = 0;
        let mut i: usize = 0;
        while i < n
            invariant
                n == self.bank.vals@.len(),
                i <= n,
                forall|a: int| 0 <= a < i ==> entry_ok(#[trigger] self.bank.vals@[a], self.state.poll_count),
                sum == sum_shares(self.bank.vals@.take(i as int)),
            decreases n - i,
        {
            if !entry_valid(&self.bank.vals[i], self.state.poll_count) {
                return false;
            }
            proof {
                let vals = self.bank.vals@;
                assert(vals.take(i + 1).drop_last() =~= vals.take(i as int));
                assert forall|a: int| 0 <= a < vals.take(i + 1).len() implies (#[trigger] vals.take(
                    i + 1,
                )[a]).share <= u64::MAX by {
                    lemma_isqrt_bound(vals[a].balance as nat);
                }
                lemma_sum_bound(vals.take(i + 1));
                assert(vals.take(i + 1).len() * u64::MAX <= u128::MAX) by (nonlinear_arith)
                    requires
                        vals.take(i + 1).len() <= u64::MAX,
                ;
            }
            sum = sum + self.bank.vals[i].share;
            i = i + 1;
        }
        proof {
            assert(self.bank.vals@.take(n as int) =~= self.bank.vals@);
        }
        sum == self.state.total_share
    }

    /// Whether the delegation links agree in both directions.
    pub fn delegation_valid(&self) -> (b: bool)
        requires
            self.bank.wf(),
            forall|i: int|
                0 <= i < self.bank.vals@.len() ==> distinct_keys(
                    (#[trigger] self.bank.vals@[i]).delegated_from@,
                ),
        ensures
            b == self.delegation_ok(),
    {
        let n = self.bank.vals.len();
        let mut i: usize = 0;
        while i < n
            invariant
                self.bank.wf(),
                forall|i: int|
                    0 <= i < self.bank.vals@.len() ==> distinct_keys(
                        (#[trigger] self.bank.vals@[i]).delegated_from@,
                    ),
                n == self.bank.vals@.len(),
                i <= n,
                forall|a: int|
                    0 <= a < i && (#[trigger] self.bank.vals@[a]).delegate_to is Some ==> {
                        let d = self.bank.vals@[a].delegate_to->0@;
                        self.bank.has(d) && has_key(
                            self.bank.vals@[self.bank.index_of(d)].delegated_from@,
                            self.bank.keys@[a]@,
                        )
                    },
                forall|a: int, j: int|
                    0 <= a < i && 0 <= j < self.bank.vals@[a].delegated_from@.len() ==> {
                        let x = (#[trigger] self.bank.vals@[a].delegated_from@[j])@;
                        self.bank.has(x) && self.member(x).delegate_to == Some(self.bank.keys@[a]@)
                    },
            decreases n - i,
        {
            match &self.bank.vals[i].delegate_to {
                Some(d) => {
                    match self.bank.find(d) {
                        Some(di) => {
                            if find_key(&self.bank.vals[di].delegated_from, &self.bank.keys[i]).is_none() {
                                return false;
                            }
                        },
                        None => {
                            return false;
                        },
                    }
                },
                None => {},
            }
            let m = self.bank.vals[i].delegated_from.len();
            let mut j: usize = 0;
            while j < m
                invariant
                    self.bank.wf(),
                    n == self.bank.vals@.len(),
                    i < n,
                    m == self.bank.vals@[i as int].delegated_from@.len(),
                    j <= m,
                    forall|b: int|
                        0 <= b < j ==> {
                            let x = (#[trigger] self.bank.vals@[i as int].delegated_from@[b])@;
                            self.bank.has(x) && self.member(x).delegate_to == Some(
                                self.bank.keys@[i as int]@,
                            )
                        },
                decreases m - j,
            {
                let linked = match self.bank.find(&self.bank.vals[i].delegated_from[j]) {
                    Some(x) => match &self.bank.vals[x].delegate_to {
                        Some(d) => *d == self.bank.keys[i],
                        None => false,
                    },
                    None => false,
                };
                if !linked {
                    return false;
                }
                j = j + 1;
            }
            i = i + 1;
        }
        true
    }

    /// Whether everyone with a vote on record in a poll in progress holds a
    /// lock on that poll.
    pub fn records_valid(&self) -> (b: bool)
        requires
            self.bank.wf(),
            self.polls@.len() == self.poll_voters@.len(),
            self.polls@.len() <= u64::MAX,
        ensures
            b == self.records_ok(),
    {
        let n = self.polls.len();
        let mut p: usize = 0;
        while p < n
            invariant
                self.bank.wf(),
                n == self.polls@.len(),
                n == self.poll_voters@.len(),
                n <= u64::MAX,
                p <= n,
                forall|q: int, r: int|
                    0 <= q < p && self.polls@[q].status == PollStatus::InProgress && 0 <= r
                        < self.poll_voters@[q].keys@.len() ==> has_lock(
                        self.member((#[trigger] self.poll_voters@[q].keys@[r])@).locked_share,
                        (q + 1) as u64,
                    ),
            decreases n - p,
        {
            if self.polls[p].status == PollStatus::InProgress {
                let m = self.poll_voters[p].keys.len();
                let poll_id = (p as u64) + 1;
                let mut r: usize = 0;
                while r < m
                    invariant
                        self.bank.wf(),
                        n == self.polls@.len(),
                        n == self.poll_voters@.len(),
                        p < n,
                        poll_id == p + 1,
                        self.polls@[p as int].status == PollStatus::InProgress,
                        m == self.poll_voters@[p as int].keys@.len(),
                        r <= m,
                        forall|x: int|
                            0 <= x < r ==> has_lock(
                                self.member((#[trigger] self.poll_voters@[p as int].keys@[x])@).locked_share,
                                poll_id,
                            ),
                    decreases m - r,
                {
                    let locked = match self.bank.find(&self.poll_voters[p].keys[r]) {
                        Some(i) => locks_poll(&self.bank.vals[i].locked_share, poll_id),
                        None => false,
                    };
                    if !locked {
                        return false;
                    }
                    r = r + 1;
                }
            }
            p = p + 1;
        }
        true
    }

    /// Whether the store is consistent: whether `inv` holds of it. A store
    /// that was made by `instantiate` and changed by the calls of this
    /// library alone always is.
    pub fn is_valid(&self) -> (b: bool)
        ensures
            b == self.inv(),
    {
        if self.config.quorum.atomics > DECIMAL_FRACTIONAL || self.config.threshold.atomics
            > DECIMAL_FRACTIONAL {
            return false;
        }
        if !self.polls_valid() {
            return false;
        }
        if !self.bank_valid() {
            return false;
        }
        self.delegation_valid() && self.records_valid()
    }
}

} // verus!
