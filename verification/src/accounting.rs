use vstd::prelude::*;
use crate::table::Table;
use crate::utils::{PollStatus, VoteInfo};

verus! {

/// Something that has a poll's status.
pub trait Ballot {
    spec fn ballot_status(&self) -> PollStatus;

    fn current_status(&self) -> (s: PollStatus)
        ensures
            s == self.ballot_status(),
    ;
}

/// Something that holds a share.
pub trait Holder {
    spec fn holding(&self) -> u128;
}

/// Sum of the shares of a list of bank entries.
pub open spec fn sum_shares<T: Holder>(vals: Seq<T>) -> nat
    decreases vals.len(),
{
    if vals.len() == 0 {
        0
    } else {
        sum_shares(vals.drop_last()) + vals.last().holding() as nat
    }
}

/// Whether one of `locks` is on poll `poll_id`.
pub open spec fn has_lock(locks: Seq<(u64, VoteInfo)>, poll_id: u64) -> bool {
    exists|j: int| 0 <= j < locks.len() && (#[trigger] locks[j]).0 == poll_id
}

/// Whether a lock is on a poll that is still in progress.
pub open spec fn lock_live<P: Ballot>(polls: Seq<P>, lock: (u64, VoteInfo)) -> bool {
    1 <= lock.0 <= polls.len() && polls[lock.0 - 1].ballot_status() == PollStatus::InProgress
}

/// The locks on polls in progress, in their order.
pub open spec fn live_locks<P: Ballot>(polls: Seq<P>, locks: Seq<(u64, VoteInfo)>) -> Seq<(u64, VoteInfo)>
    decreases locks.len(),
{
    if locks.len() == 0 {
        Seq::empty()
    } else if lock_live(polls, locks.last()) {
        live_locks(polls, locks.drop_last()).push(locks.last())
    } else {
        live_locks(polls, locks.drop_last())
    }
}

/// The largest weight among `locks`, zero when there is none.
pub open spec fn max_balance(locks: Seq<(u64, VoteInfo)>) -> u128
    decreases locks.len(),
{
    if locks.len() == 0 {
        0
    } else if locks.last().1.balance > max_balance(locks.drop_last()) {
        locks.last().1.balance
    } else {
        max_balance(locks.drop_last())
    }
}

/// A list with one more lock locks one more poll.
pub proof fn lemma_has_lock_push(locks: Seq<(u64, VoteInfo)>, last: (u64, VoteInfo), poll_id: u64)
    ensures
        has_lock(locks.push(last), poll_id) <==> has_lock(locks, poll_id) || last.0 == poll_id,
{
    let after = locks.push(last);
    if has_lock(locks, poll_id) {
        let i = choose|i: int| 0 <= i < locks.len() && (#[trigger] locks[i]).0 == poll_id;
        assert(after[i].0 == poll_id);
    }
    if last.0 == poll_id {
        assert(after[locks.len() as int].0 == poll_id);
    }
}

/// What `push` does to membership in a list.
pub proof fn lemma_push_contains<A>(locks: Seq<A>, last: A, x: A)
    ensures
        locks.push(last).contains(x) <==> locks.contains(x) || x == last,
{
    let after = locks.push(last);
    if locks.contains(x) {
        let i = choose|i: int| 0 <= i < locks.len() && locks[i] == x;
        assert(after[i] == x);
    }
    if x == last {
        assert(after[locks.len() as int] == x);
    }
}

/// The live locks are exactly the locks that are live.
pub proof fn lemma_live_locks<P: Ballot>(polls: Seq<P>, locks: Seq<(u64, VoteInfo)>, x: (u64, VoteInfo))
    ensures
        live_locks(polls, locks).contains(x) <==> locks.contains(x) && lock_live(polls, x),
    decreases locks.len(),
{
    if locks.len() > 0 {
        let init = locks.drop_last();
        lemma_live_locks(polls, init, x);
        assert(locks =~= init.push(locks.last()));
        lemma_push_contains(live_locks(polls, init), locks.last(), x);
    }
}

/// The locks on polls other than `poll_id`, in their order.
pub open spec fn locks_except(locks: Seq<(u64, VoteInfo)>, poll_id: u64) -> Seq<(u64, VoteInfo)>
    decreases locks.len(),
{
    if locks.len() == 0 {
        Seq::empty()
    } else if locks.last().0 != poll_id {
        locks_except(locks.drop_last(), poll_id).push(locks.last())
    } else {
        locks_except(locks.drop_last(), poll_id)
    }
}

/// The locks except those on `poll_id` are exactly the locks not on it.
pub proof fn lemma_locks_except(locks: Seq<(u64, VoteInfo)>, poll_id: u64, x: (u64, VoteInfo))
    ensures
        locks_except(locks, poll_id).contains(x) <==> locks.contains(x) && x.0 != poll_id,
    decreases locks.len(),
{
    if locks.len() > 0 {
        let init = locks.drop_last();
        lemma_locks_except(init, poll_id, x);
        assert(locks =~= init.push(locks.last()));
        lemma_push_contains(locks_except(init, poll_id), locks.last(), x);
    }
}

/// Dropping the locks on one poll leaves every other poll locked as before.
pub proof fn lemma_except_has_lock(locks: Seq<(u64, VoteInfo)>, poll_id: u64, other: u64)
    ensures
        has_lock(locks_except(locks, poll_id), other) <==> has_lock(locks, other) && other
            != poll_id,
{
    let rest = locks_except(locks, poll_id);
    if has_lock(rest, other) {
        let j = choose|j: int| 0 <= j < rest.len() && (#[trigger] rest[j]).0 == other;
        lemma_locks_except(locks, poll_id, rest[j]);
    }
    if has_lock(locks, other) && other != poll_id {
        let i = choose|i: int| 0 <= i < locks.len() && (#[trigger] locks[i]).0 == other;
        lemma_locks_except(locks, poll_id, locks[i]);
    }
}

/// A poll in progress is locked by the live locks just when it is locked at
/// all; a poll that is over is locked by none of them.
pub proof fn lemma_live_has_lock<P: Ballot>(polls: Seq<P>, locks: Seq<(u64, VoteInfo)>, poll_id: u64)
    ensures
        has_lock(live_locks(polls, locks), poll_id) <==> has_lock(locks, poll_id) && 1 <= poll_id
            <= polls.len() && polls[poll_id - 1].ballot_status() == PollStatus::InProgress,
{
    let live = live_locks(polls, locks);
    if has_lock(live, poll_id) {
        let j = choose|j: int| 0 <= j < live.len() && (#[trigger] live[j]).0 == poll_id;
        lemma_live_locks(polls, locks, live[j]);
    }
    if has_lock(locks, poll_id) && 1 <= poll_id <= polls.len() && polls[poll_id - 1].ballot_status()
        == PollStatus::InProgress {
        let i = choose|i: int| 0 <= i < locks.len() && (#[trigger] locks[i]).0 == poll_id;
        lemma_live_locks(polls, locks, locks[i]);
    }
}

/// Every live lock is one of the locks.
pub proof fn lemma_live_sub<P: Ballot>(polls: Seq<P>, locks: Seq<(u64, VoteInfo)>, j: int)
    requires
        0 <= j < live_locks(polls, locks).len(),
    ensures
        locks.contains(live_locks(polls, locks)[j]),
        lock_live(polls, live_locks(polls, locks)[j]),
{
    let live = live_locks(polls, locks);
    lemma_live_locks(polls, locks, live[j]);
}

/// Sum of shares after one more entry.
pub proof fn lemma_sum_push<T: Holder>(vals: Seq<T>, tm: T)
    ensures
        sum_shares(vals.push(tm)) == sum_shares(vals) + tm.holding(),
{
    assert(vals.push(tm).drop_last() =~= vals);
}

/// Replacing one entry moves the sum by the difference of the two shares.
pub proof fn lemma_sum_update<T: Holder>(vals: Seq<T>, i: int, tm: T)
    requires
        0 <= i < vals.len(),
    ensures
        sum_shares(vals.update(i, tm)) == sum_shares(vals) - vals[i].holding() + tm.holding(),
        sum_shares(vals) >= vals[i].holding(),
    decreases vals.len(),
{
    let after = vals.update(i, tm);
    if i == vals.len() - 1 {
        assert(after.drop_last() =~= vals.drop_last());
    } else {
        lemma_sum_update(vals.drop_last(), i, tm);
        assert(after.drop_last() =~= vals.drop_last().update(i, tm));
    }
}

/// Lists of entries with the same shares have the same sum.
pub proof fn lemma_sum_same_shares<T: Holder>(a: Seq<T>, b: Seq<T>)
    requires
        a.len() == b.len(),
        forall|i: int| 0 <= i < a.len() ==> (#[trigger] a[i]).holding() == b[i].holding(),
    ensures
        sum_shares(a) == sum_shares(b),
    decreases a.len(),
{
    if a.len() > 0 {
        lemma_sum_same_shares(a.drop_last(), b.drop_last());
    }
}

/// With every share within 64 bits, the sum of at most 2^64 of them stays
/// within 128 bits.
pub proof fn lemma_sum_bound<T: Holder>(vals: Seq<T>)
    requires
        forall|i: int| 0 <= i < vals.len() ==> (#[trigger] vals[i]).holding() <= u64::MAX,
    ensures
        sum_shares(vals) <= vals.len() * u64::MAX,
    decreases vals.len(),
{
    if vals.len() > 0 {
        lemma_sum_bound(vals.drop_last());
    }
}

/// A bound on every weight is a bound on the largest.
pub proof fn lemma_max_balance_bound(locks: Seq<(u64, VoteInfo)>, bound: u128)
    requires
        forall|j: int| 0 <= j < locks.len() ==> (#[trigger] locks[j]).1.balance <= bound,
    ensures
        max_balance(locks) <= bound,
    decreases locks.len(),
{
    if locks.len() > 0 {
        lemma_max_balance_bound(locks.drop_last(), bound);
    }
}

/// Position of poll `poll_id` in the list of polls.
pub fn poll_index<P>(polls: &Vec<P>, poll_id: u64) -> (p: usize)
    requires
        1 <= poll_id <= polls@.len(),
    ensures
        p == poll_id - 1,
{
    let n = polls.len();
    (poll_id - 1) as usize
}

/// The largest weight among the locks on polls that are still in progress.
pub fn max_live_lock<P: Ballot>(polls: &Vec<P>, locks: &Vec<(u64, VoteInfo)>) -> (m: u128)
    requires
        forall|j: int| 0 <= j < locks@.len() ==> 1 <= (#[trigger] locks@[j]).0 <= polls@.len(),
    ensures
        m == max_balance(live_locks(polls@, locks@)),
{
    let n = locks.len();
    let mut m: u128 = 0;
    let mut j: usize = 0;
    while j < n
        invariant
            forall|j: int| 0 <= j < locks@.len() ==> 1 <= (#[trigger] locks@[j]).0 <= polls@.len(),
            n == locks@.len(),
            j <= n,
            m == max_balance(live_locks(polls@, locks@.take(j as int))),
        decreases n - j,
    {
        let lock = locks[j];
        proof {
            assert(locks@.take(j + 1).drop_last() =~= locks@.take(j as int));
            let sub = live_locks(polls@, locks@.take(j as int));
            assert(sub.push(lock).drop_last() =~= sub);
        }
        let q = poll_index(polls, lock.0);
        if polls[q].current_status() == PollStatus::InProgress {
            if lock.1.balance > m {
                m = lock.1.balance;
            }
        }
        j = j + 1;
    }
    assert(locks@.take(n as int) =~= locks@);
    m
}

/// Whether one of the locks is on a poll that is still in progress.
pub fn has_live_lock<P: Ballot>(polls: &Vec<P>, locks: &Vec<(u64, VoteInfo)>) -> (b: bool)
    requires
        forall|j: int| 0 <= j < locks@.len() ==> 1 <= (#[trigger] locks@[j]).0 <= polls@.len(),
    ensures
        b == (live_locks(polls@, locks@).len() > 0),
{
    let n = locks.len();
    let mut j: usize = 0;
    while j < n
        invariant
            forall|j: int| 0 <= j < locks@.len() ==> 1 <= (#[trigger] locks@[j]).0 <= polls@.len(),
            n == locks@.len(),
            j <= n,
            live_locks(polls@, locks@.take(j as int)).len() == 0,
        decreases n - j,
    {
        let lock = locks[j];
        proof {
            assert(locks@.take(j + 1).drop_last() =~= locks@.take(j as int));
        }
        let q = poll_index(polls, lock.0);
        if polls[q].current_status() == PollStatus::InProgress {
            proof {
                lemma_live_grows(polls@, locks@, j + 1);
            }
            return true;
        }
        j = j + 1;
    }
    assert(locks@.take(n as int) =~= locks@);
    false
}

/// A longer prefix of the locks has no fewer live locks.
pub proof fn lemma_live_grows<P: Ballot>(polls: Seq<P>, locks: Seq<(u64, VoteInfo)>, j: int)
    requires
        0 <= j <= locks.len(),
    ensures
        live_locks(polls, locks.take(j)).len() <= live_locks(polls, locks).len(),
    decreases locks.len() - j,
{
    if j < locks.len() {
        lemma_live_grows(polls, locks, j + 1);
        assert(locks.take(j + 1).drop_last() =~= locks.take(j));
    } else {
        assert(locks.take(j) =~= locks);
    }
}

/// The locks on polls that are still in progress.
pub fn keep_live_locks<P: Ballot>(polls: &Vec<P>, locks: &Vec<(u64, VoteInfo)>) -> (kept: Vec<
    (u64, VoteInfo),
>)
    requires
        forall|j: int| 0 <= j < locks@.len() ==> 1 <= (#[trigger] locks@[j]).0 <= polls@.len(),
    ensures
        kept@ == live_locks(polls@, locks@),
{
    let n = locks.len();
    let mut kept: Vec<(u64, VoteInfo)> = Vec::new();
    let mut j: usize = 0;
    while j < n
        invariant
            forall|j: int| 0 <= j < locks@.len() ==> 1 <= (#[trigger] locks@[j]).0 <= polls@.len(),
            n == locks@.len(),
            j <= n,
            kept@ == live_locks(polls@, locks@.take(j as int)),
        decreases n - j,
    {
        let lock = locks[j];
        proof {
            assert(locks@.take(j + 1).drop_last() =~= locks@.take(j as int));
        }
        let q = poll_index(polls, lock.0);
        if polls[q].current_status() == PollStatus::InProgress {
            kept.push(lock);
        }
        j = j + 1;
    }
    proof {
        assert(locks@.take(n as int) =~= locks@);
    }
    kept
}

/// The locks on polls other than `poll_id`.
pub fn drop_locks_on(locks: &Vec<(u64, VoteInfo)>, poll_id: u64) -> (kept: Vec<(u64, VoteInfo)>)
    ensures
        kept@ == locks_except(locks@, poll_id),
{
    let n = locks.len();
    let mut kept: Vec<(u64, VoteInfo)> = Vec::new();
    let mut j: usize = 0;
    while j < n
        invariant
            n == locks@.len(),
            j <= n,
            kept@ == locks_except(locks@.take(j as int), poll_id),
        decreases n - j,
    {
        let lock = locks[j];
        proof {
            assert(locks@.take(j + 1).drop_last() =~= locks@.take(j as int));
        }
        if lock.0 != poll_id {
            kept.push(lock);
        }
        j = j + 1;
    }
    proof {
        assert(locks@.take(n as int) =~= locks@);
    }
    kept
}

/// The locked-vote reduction on the votes on record: for each of `locks`
/// that is on a poll no longer in progress, the vote recorded under `key` in
/// that poll is erased. Returns the locks on polls still in progress.
pub fn drop_stale_records<P: Ballot>(
    polls: &Vec<P>,
    poll_voters: &mut Vec<Table<VoteInfo>>,
    key: &String,
    locks: &Vec<(u64, VoteInfo)>,
) -> (kept: Vec<(u64, VoteInfo)>)
    requires
        old(poll_voters)@.len() == polls@.len(),
        forall|q: int| 0 <= q < old(poll_voters)@.len() ==> (#[trigger] old(poll_voters)@[q]).wf(),
        forall|j: int| 0 <= j < locks@.len() ==> 1 <= (#[trigger] locks@[j]).0 <= polls@.len(),
    ensures
        kept@ == live_locks(polls@, locks@),
        final(poll_voters)@.len() == polls@.len(),
        forall|q: int| 0 <= q < final(poll_voters)@.len() ==> (#[trigger] final(poll_voters)@[q]).wf(),
        forall|q: int|
            0 <= q < polls@.len() && polls@[q].ballot_status() == PollStatus::InProgress
                ==> #[trigger] final(poll_voters)@[q] == old(poll_voters)@[q],
        forall|q: int, k: Seq<char>|
            0 <= q < polls@.len() ==> #[trigger] final(poll_voters)@[q].get(k) == if k == key@
                && has_lock(locks@, (q + 1) as u64) && polls@[q].ballot_status()
                != PollStatus::InProgress {
                None
            } else {
                old(poll_voters)@[q].get(k)
            },
{
    let ghost before = poll_voters@;
    let n = locks.len();
    let polls_len = polls.len();
    let mut kept: Vec<(u64, VoteInfo)> = Vec::new();
    let mut j: usize = 0;
    while j < n
        invariant
            n == locks@.len(),
            j <= n,
            polls@.len() == polls_len,
            before.len() == polls@.len(),
            forall|j: int| 0 <= j < locks@.len() ==> 1 <= (#[trigger] locks@[j]).0 <= polls@.len(),
            poll_voters@.len() == before.len(),
            forall|q: int| 0 <= q < poll_voters@.len() ==> (#[trigger] poll_voters@[q]).wf(),
            kept@ == live_locks(polls@, locks@.take(j as int)),
            forall|q: int|
                0 <= q < polls@.len() && polls@[q].ballot_status() == PollStatus::InProgress
                    ==> #[trigger] poll_voters@[q] == before[q],
            forall|q: int, k: Seq<char>|
                0 <= q < polls@.len() ==> #[trigger] poll_voters@[q].get(k) == if k == key@
                    && has_lock(locks@.take(j as int), (q + 1) as u64) && polls@[q].ballot_status()
                    != PollStatus::InProgress {
                    None
                } else {
                    before[q].get(k)
                },
        decreases n - j,
    {
        let lock = locks[j];
        proof {
            assert(locks@.take(j + 1) =~= locks@.take(j as int).push(lock));
            assert(locks@.take(j + 1).drop_last() =~= locks@.take(j as int));
            assert forall|pid: u64| #[trigger]
                has_lock(locks@.take(j + 1), pid) <==> has_lock(locks@.take(j as int), pid)
                    || lock.0 == pid by {
                lemma_has_lock_push(locks@.take(j as int), lock, pid);
            }
        }
        let q = poll_index(polls, lock.0);
        if polls[q].current_status() == PollStatus::InProgress {
            kept.push(lock);
        } else {
            match poll_voters[q].find(key) {
                Some(r) => {
                    poll_voters[q].swap_remove(r);
                },
                None => {},
            }
        }
        j = j + 1;
    }
    proof {
        assert(locks@.take(n as int) =~= locks@);
    }
    kept
}

} // verus!
