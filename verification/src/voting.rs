use vstd::prelude::*;
use crate::accounting::{
    drop_locks_on, has_lock, lemma_except_has_lock, lemma_has_lock_push, lemma_locks_except,
    lemma_sum_same_shares, live_locks, locks_except, poll_index,
};
use crate::bank::{ensure_member, purge_locks};
use crate::error::{ContractError, StdError};
use crate::math::lemma_isqrt_bound;
use crate::response::{Event, Response};
use crate::state::{advances, entry_ok, Member, no_tally_shrunk, Poll, Store, texts};
use crate::table::lemma_key_push;
use crate::utils::{PollStatus, VoteInfo, VoteOption};

verus! {

/// The tally of `poll` on the side of `vote`.
pub open spec fn tally_of(poll: Poll, vote: VoteOption) -> u128 {
    match vote {
        VoteOption::Yes => poll.yes_votes,
        VoteOption::No => poll.no_votes,
    }
}

/// `poll` with `amount` more on the side of `vote`.
pub open spec fn tally_added(poll: Poll, vote: VoteOption, amount: int) -> Poll {
    match vote {
        VoteOption::Yes => Poll { yes_votes: (poll.yes_votes + amount) as u128, ..poll },
        VoteOption::No => Poll { no_votes: (poll.no_votes + amount) as u128, ..poll },
    }
}

/// A member with one more lock: on poll `poll_id`, for `vote`, with the
/// member's whole share as its weight.
pub open spec fn with_vote(m: Member, poll_id: u64, vote: VoteOption) -> Member {
    Member { locked_share: m.locked_share.push((poll_id, VoteInfo { vote, balance: m.share })), ..m }
}

/// What one vote does: the poll's tally on the side of `vote` grows by the
/// share of `key`, `key` holds one more lock, and the vote stands on record
/// under `key`, in place of an earlier one if there was one.
pub open spec fn single_vote_cast(
    pre: Store,
    post: Store,
    key: Seq<char>,
    poll_id: u64,
    vote: VoteOption,
) -> bool {
    &&& post.config == pre.config
    &&& post.state == pre.state
    &&& post.polls@ == pre.polls@.update(
        poll_id - 1,
        tally_added(pre.poll(poll_id), vote, pre.member(key).share as int),
    )
    &&& post.bank.has(key)
    &&& forall|k: Seq<char>|
        k != key ==> #[trigger] post.member(k) == pre.member(k) && (post.bank.has(k)
            <==> pre.bank.has(k))
    &&& post.member(key) == with_vote(pre.member(key), poll_id, vote)
    &&& post.poll_voters@.len() == pre.poll_voters@.len()
    &&& forall|q: u64, k: Seq<char>| #[trigger]
        post.voter(q, k) == if q == poll_id && k == key {
            Some(VoteInfo { vote, balance: pre.member(key).share })
        } else {
            pre.voter(q, k)
        }
}

/// Casts the whole share of `key` on the poll at position `p`, whose tally
/// must have room for it.
pub fn cast_single_vote(store: &mut Store, key: &String, p: usize, vote: VoteOption) -> (amount: u128)
    requires
        old(store).inv(),
        p < old(store).polls@.len(),
        tally_of(old(store).polls@[p as int], vote) + old(store).member(key@).share <= u128::MAX,
    ensures
        final(store).inv(),
        single_vote_cast(*old(store), *final(store), key@, (p + 1) as u64, vote),
        amount == old(store).member(key@).share,
        old(store).bank.vals@.len() <= final(store).bank.vals@.len(),
        forall|x: int|
            0 <= x < old(store).bank.vals@.len() ==> {
                &&& final(store).bank.keys@[x] == old(store).bank.keys@[x]
                &&& (#[trigger] final(store).bank.vals@[x]).delegated_from == old(
                    store,
                ).bank.vals@[x].delegated_from
                &&& final(store).bank.vals@[x].delegate_to == old(store).bank.vals@[x].delegate_to
                &&& final(store).bank.vals@[x].share == old(store).bank.vals@[x].share
            },
{
    let ghost pre = *store;
    let i = ensure_member(store, key);
    let ghost a = *store;
    let amount = store.bank.vals[i].share;
    let id = store.polls[p].id;
    proof {
        assert(a.member(key@).share == amount);
    }
    match vote {
        VoteOption::Yes => {
            store.polls[p].yes_votes = store.polls[p].yes_votes + amount;
        },
        VoteOption::No => {
            store.polls[p].no_votes = store.polls[p].no_votes + amount;
        },
    }
    let info = VoteInfo { vote, balance: amount };
    store.bank.vals[i].locked_share.push((id, info));
    match store.poll_voters[p].find(key) {
        Some(r) => {
            store.poll_voters[p].vals[r] = info;
        },
        None => {
            store.poll_voters[p].insert(key.clone(), info);
        },
    }
    proof {
        let f = *store;
        // the bank
        lemma_sum_same_shares(f.bank.vals@, a.bank.vals@);
        assert forall|x: int| 0 <= x < f.bank.vals@.len() implies entry_ok(
            #[trigger] f.bank.vals@[x],
            f.state.poll_count,
        ) by {
            if x == i {
                lemma_isqrt_bound(a.bank.vals@[x].balance as nat);
            }
        }
        // the votes on record
        let told = a.poll_voters@[p as int];
        let tnew = f.poll_voters@[p as int];
        assert forall|k: Seq<char>| #[trigger] tnew.get(k) == if k == key@ {
            Some(info)
        } else {
            told.get(k)
        } by {
            if !told.has(key@) {
                lemma_key_push(told.keys@, *key);
            }
        }
        assert forall|q: int, r: int|
            0 <= q < f.polls@.len() && f.polls@[q].status == PollStatus::InProgress && 0 <= r
                < f.poll_voters@[q].keys@.len() implies has_lock(
            f.member((#[trigger] f.poll_voters@[q].keys@[r])@).locked_share,
            (q + 1) as u64,
        ) by {
            lemma_has_lock_push(pre.member(key@).locked_share, (id, info), (q + 1) as u64);
        }
    }
    amount
}

/// Sum of the shares of the members `keys`.
pub open spec fn shares_of(s: Store, keys: Seq<Seq<char>>) -> nat
    decreases keys.len(),
{
    if keys.len() == 0 {
        0
    } else {
        shares_of(s, keys.drop_last()) + s.member(keys.last()).share as nat
    }
}

/// A prefix of the keys has no larger sum of shares.
pub proof fn lemma_shares_of_prefix(s: Store, keys: Seq<Seq<char>>, j: int)
    requires
        0 <= j <= keys.len(),
    ensures
        shares_of(s, keys.take(j)) <= shares_of(s, keys),
    decreases keys.len() - j,
{
    if j < keys.len() {
        lemma_shares_of_prefix(s, keys, j + 1);
        assert(keys.take(j + 1).drop_last() =~= keys.take(j));
    } else {
        assert(keys.take(j) =~= keys);
    }
}

/// The weight a vote of `voter` carries: the voter's own share and the
/// shares of all who delegated to the voter.
pub open spec fn cascade_total(pre: Store, voter: Seq<char>) -> nat {
    pre.member(voter).share as nat + shares_of(pre, pre.member(voter).delegated_from)
}

/// Whether a vote of `voter` is cast for `k` as well: for the voter, and for
/// everyone who delegated to the voter.
pub open spec fn in_cascade(pre: Store, voter: Seq<char>, k: Seq<char>) -> bool {
    k == voter || pre.member(voter).delegated_from.contains(k)
}

/// Why a vote is refused, if it is: the poll does not exist, is over or past
/// its end height, the voter has voted or has delegated, or the tally would
/// leave 128 bits.
pub open spec fn cast_vote_error(
    pre: Store,
    height: u64,
    voter: Seq<char>,
    poll_id: u64,
    vote: VoteOption,
) -> Option<ContractError> {
    if poll_id == 0 || poll_id > pre.state.poll_count {
        Some(ContractError::PollNotFound)
    } else if pre.poll(poll_id).status != PollStatus::InProgress || height > pre.poll(
        poll_id,
    ).end_height {
        Some(ContractError::PollNotInProgress)
    } else if pre.voter(poll_id, voter) is Some {
        Some(ContractError::AlreadyVoted)
    } else if pre.member(voter).delegate_to is Some {
        Some(ContractError::AlreadyDelegated)
    } else if tally_of(pre.poll(poll_id), vote) + cascade_total(pre, voter) > u128::MAX {
        Some(ContractError::Std(StdError::Overflow))
    } else {
        None
    }
}

/// What a vote does: the voter and everyone who delegated to the voter each
/// put their whole share on the side of `vote`. Each of them holds one more
/// lock and has the vote on record under their own key; the tally grows by
/// the sum of their shares. Nobody else is touched.
pub open spec fn votes_cast(
    pre: Store,
    post: Store,
    voter: Seq<char>,
    poll_id: u64,
    vote: VoteOption,
) -> bool {
    &&& post.config == pre.config
    &&& post.state == pre.state
    &&& post.polls@ == pre.polls@.update(
        poll_id - 1,
        tally_added(pre.poll(poll_id), vote, cascade_total(pre, voter) as int),
    )
    &&& post.poll_voters@.len() == pre.poll_voters@.len()
    &&& forall|k: Seq<char>| #[trigger]
        post.member(k) == if in_cascade(pre, voter, k) {
            with_vote(pre.member(k), poll_id, vote)
        } else {
            pre.member(k)
        }
    &&& forall|k: Seq<char>| #[trigger]
        post.bank.has(k) <==> pre.bank.has(k) || in_cascade(pre, voter, k)
    &&& forall|q: u64, k: Seq<char>| #[trigger]
        post.voter(q, k) == if q == poll_id && in_cascade(pre, voter, k) {
            Some(VoteInfo { vote, balance: pre.member(k).share })
        } else {
            pre.voter(q, k)
        }
}

/// The sum of the shares of the first `j` who delegated to the member at
/// position `vi`, or nothing when it leaves 128 bits.
fn delegated_shares(store: &Store, vi: usize) -> (r: Option<u128>)
    requires
        store.inv(),
        vi < store.bank.vals@.len(),
    ensures
        match r {
            Some(t) => t == shares_of(*store, texts(store.bank.vals@[vi as int].delegated_from@)),
            None => shares_of(*store, texts(store.bank.vals@[vi as int].delegated_from@))
                > u128::MAX,
        },
{
    let ghost from = texts(store.bank.vals@[vi as int].delegated_from@);
    let n = store.bank.vals[vi].delegated_from.len();
    let mut total: u128 = 0;
    let mut j: usize = 0;
    while j < n
        invariant
            store.inv(),
            vi < store.bank.vals@.len(),
            from == texts(store.bank.vals@[vi as int].delegated_from@),
            n == from.len(),
            j <= n,
            total == shares_of(*store, from.take(j as int)),
        decreases n - j,
    {
        let share = match store.bank.find(&store.bank.vals[vi].delegated_from[j]) {
            Some(x) => store.bank.vals[x].share,
            None => 0,
        };
        proof {
            assert(from.take(j + 1).drop_last() =~= from.take(j as int));
        }
        total = match total.checked_add(share) {
            Some(t) => t,
            None => {
                proof {
                    lemma_shares_of_prefix(*store, from, j + 1);
                }
                return None;
            },
        };
        j = j + 1;
    }
    assert(from.take(n as int) =~= from);
    Some(total)
}

/// Casts the vote of the member `voter_id` on poll `poll_id` at block
/// `height`, for the voter and for all who delegated to the voter.
pub fn cast_vote(store: &mut Store, height: u64, voter_id: String, poll_id: u64, vote: VoteOption) -> (r:
    Result<Response, ContractError>)
    requires
        old(store).inv(),
    ensures
        final(store).inv(),
        advances(*old(store), *final(store)),
        no_tally_shrunk(*old(store), *final(store)),
        match r {
            Ok(resp) => {
                &&& cast_vote_error(*old(store), height, voter_id@, poll_id, vote) is None
                &&& votes_cast(*old(store), *final(store), voter_id@, poll_id, vote)
                &&& resp.event == Event::CastVote {
                    poll_id,
                    my_share: old(store).member(voter_id@).share,
                    total_amount: cascade_total(*old(store), voter_id@) as u128,
                    voter: voter_id,
                    vote_option: vote,
                }
                &&& resp.messages@.len() == 0
            },
            Err(e) => cast_vote_error(*old(store), height, voter_id@, poll_id, vote) == Some(e)
                && *final(store) == *old(store),
        },
{
    let ghost pre = *store;
    let ghost voter = voter_id@;
    if poll_id == 0 || poll_id > store.state.poll_count {
        return Err(ContractError::PollNotFound);
    }
    let p = poll_index(&store.polls, poll_id);
    if store.polls[p].status != PollStatus::InProgress || height > store.polls[p].end_height {
        return Err(ContractError::PollNotInProgress);
    }
    if store.poll_voters[p].find(&voter_id).is_some() {
        return Err(ContractError::AlreadyVoted);
    }
    let found = store.bank.find(&voter_id);
    let mut my_share: u128 = 0;
    let mut from_total: u128 = 0;
    let mut n: usize = 0;
    match found {
        Some(vi) => {
            if store.bank.vals[vi].delegate_to.is_some() {
                return Err(ContractError::AlreadyDelegated);
            }
            my_share = store.bank.vals[vi].share;
            n = store.bank.vals[vi].delegated_from.len();
            from_total = match delegated_shares(store, vi) {
                Some(t) => t,
                None => {
                    return Err(ContractError::Std(StdError::Overflow));
                },
            };
        },
        None => {},
    }
    let ghost from = pre.member(voter).delegated_from;
    let total = match my_share.checked_add(from_total) {
        Some(t) => t,
        None => {
            return Err(ContractError::Std(StdError::Overflow));
        },
    };
    let tally = match vote {
        VoteOption::Yes => store.polls[p].yes_votes,
        VoteOption::No => store.polls[p].no_votes,
    };
    if tally > u128::MAX - total {
        return Err(ContractError::Std(StdError::Overflow));
    }
    cast_single_vote(store, &voter_id, p, vote);
    let ghost first = *store;
    let vi = match found {
        Some(vi) => vi,
        None => 0,
    };
    proof {
        assert forall|k: Seq<char>| #[trigger]
            first.bank.has(k) <==> pre.bank.has(k) || k == voter || from.take(0).contains(k) by {
            if k != voter {
                assert(first.member(k) == pre.member(k));
            }
        }
    }
    let mut j: usize = 0;
    while j < n
        invariant
            pre.inv(),
            store.inv(),
            voter == voter_id@,
            from == pre.member(voter).delegated_from,
            n == from.len(),
            j <= n,
            n > 0 ==> found == Some(vi) && vi < pre.bank.vals@.len() && pre.bank.keys@[vi as int]@
                == voter && from == texts(pre.bank.vals@[vi as int].delegated_from@),
            1 <= poll_id <= pre.state.poll_count,
            p == poll_id - 1,
            pre.polls@[p as int].status == PollStatus::InProgress,
            tally_of(pre.polls@[p as int], vote) + pre.member(voter).share + shares_of(pre, from)
                <= u128::MAX,
            forall|a: int| 0 <= a < from.len() ==> from[a] != voter,
            forall|a: int, b: int| 0 <= a < b < from.len() ==> from[a] != from[b],
            store.config == pre.config,
            store.state == pre.state,
            store.polls@ == pre.polls@.update(
                p as int,
                tally_added(
                    pre.polls@[p as int],
                    vote,
                    pre.member(voter).share + shares_of(pre, from.take(j as int)),
                ),
            ),
            store.poll_voters@.len() == pre.poll_voters@.len(),
            pre.bank.vals@.len() <= store.bank.vals@.len(),
            forall|x: int|
                0 <= x < pre.bank.vals@.len() ==> (#[trigger] store.bank.vals@[x]).delegated_from
                    == pre.bank.vals@[x].delegated_from,
            forall|k: Seq<char>| #[trigger]
                store.member(k) == if k == voter || from.take(j as int).contains(k) {
                    with_vote(pre.member(k), poll_id, vote)
                } else {
                    pre.member(k)
                },
            forall|k: Seq<char>| #[trigger]
                store.bank.has(k) <==> pre.bank.has(k) || k == voter || from.take(j as int).contains(
                    k,
                ),
            forall|q: u64, k: Seq<char>| #[trigger]
                store.voter(q, k) == if q == poll_id && (k == voter || from.take(j as int).contains(
                    k,
                )) {
                    Some(VoteInfo { vote, balance: pre.member(k).share })
                } else {
                    pre.voter(q, k)
                },
        decreases n - j,
    {
        let ghost mid = *store;
        let ghost kj = from[j as int];
        let key = store.bank.vals[vi].delegated_from[j].clone();
        proof {
            assert(from.take(j + 1).drop_last() =~= from.take(j as int));
            lemma_shares_of_prefix(pre, from, j + 1);
        }
        cast_single_vote(store, &key, p, vote);
        proof {
            let f = *store;
            assert forall|k: Seq<char>| #[trigger]
                f.bank.has(k) <==> pre.bank.has(k) || k == voter || from.take(j + 1).contains(k) by {
                if k != kj {
                    assert(f.member(k) == mid.member(k));
                }
            }
        }
        j = j + 1;
    }
    proof {
        assert(from.take(n as int) =~= from);
    }
    Ok(
        Response::of(
            Event::CastVote {
                poll_id,
                my_share,
                total_amount: total,
                voter: voter_id,
                vote_option: vote,
            },
        ),
    )
}

/// Why a vote cannot be taken back, if it cannot: the poll does not exist,
/// is over or past its end height, the voter has no vote on record, or the
/// tally is smaller than the vote.
pub open spec fn cancel_vote_error(pre: Store, height: u64, voter: Seq<char>, poll_id: u64) -> Option<
    ContractError,
> {
    if poll_id == 0 || poll_id > pre.state.poll_count {
        Some(ContractError::PollNotFound)
    } else if pre.poll(poll_id).status != PollStatus::InProgress || height > pre.poll(
        poll_id,
    ).end_height {
        Some(ContractError::PollNotInProgress)
    } else if pre.voter(poll_id, voter) is None {
        Some(ContractError::NotYetVoted)
    } else if tally_of(pre.poll(poll_id), pre.voter(poll_id, voter)->0.vote) < pre.voter(
        poll_id,
        voter,
    )->0.balance {
        Some(ContractError::Std(StdError::Overflow))
    } else {
        None
    }
}

/// What taking back a vote does: the tally shrinks by the weight on record,
/// the record goes, and the voter keeps only the locks on other polls that
/// are in progress; with each stale lock goes the vote recorded under it.
pub open spec fn vote_cancelled(pre: Store, post: Store, voter: Seq<char>, poll_id: u64) -> bool {
    let info = pre.voter(poll_id, voter)->0;
    let locks = pre.member(voter).locked_share;
    &&& post.config == pre.config
    &&& post.state == pre.state
    &&& post.polls@ == pre.polls@.update(
        poll_id - 1,
        tally_added(pre.poll(poll_id), info.vote, -(info.balance as int)),
    )
    &&& post.bank.keys == pre.bank.keys
    &&& forall|k: Seq<char>| k != voter ==> #[trigger] post.member(k) == pre.member(k)
    &&& post.member(voter) == Member {
        locked_share: locks_except(live_locks(pre.polls@, locks), poll_id),
        ..pre.member(voter)
    }
    &&& post.poll_voters@.len() == pre.poll_voters@.len()
    &&& forall|q: u64, k: Seq<char>| #[trigger]
        post.voter(q, k) == if k == voter && (q == poll_id || (has_lock(locks, q)
            && !pre.in_progress(q))) {
            None
        } else {
            pre.voter(q, k)
        }
}

/// Takes back the vote of the member `voter_id` on poll `poll_id` at block
/// `height`.
pub fn cancel_vote(store: &mut Store, height: u64, voter_id: String, poll_id: u64) -> (r: Result<
    Response,
    ContractError,
>)
    requires
        old(store).inv(),
    ensures
        final(store).inv(),
        advances(*old(store), *final(store)),
        match r {
            Ok(resp) => {
                &&& cancel_vote_error(*old(store), height, voter_id@, poll_id) is None
                &&& vote_cancelled(*old(store), *final(store), voter_id@, poll_id)
                &&& resp.event == Event::CancelVote {
                    poll_id,
                    amount: old(store).voter(poll_id, voter_id@)->0.balance,
                    voter: voter_id,
                    vote_option: old(store).voter(poll_id, voter_id@)->0.vote,
                }
                &&& resp.messages@.len() == 0
            },
            Err(e) => cancel_vote_error(*old(store), height, voter_id@, poll_id) == Some(e)
                && *final(store) == *old(store),
        },
{
    let ghost pre = *store;
    let ghost voter = voter_id@;
    if poll_id == 0 || poll_id > store.state.poll_count {
        return Err(ContractError::PollNotFound);
    }
    let p = poll_index(&store.polls, poll_id);
    if store.polls[p].status != PollStatus::InProgress || height > store.polls[p].end_height {
        return Err(ContractError::PollNotInProgress);
    }
    let info = match store.poll_voters[p].find(&voter_id) {
        Some(r) => store.poll_voters[p].vals[r],
        None => {
            return Err(ContractError::NotYetVoted);
        },
    };
    let tally = match info.vote {
        VoteOption::Yes => store.polls[p].yes_votes,
        VoteOption::No => store.polls[p].no_votes,
    };
    if tally < info.balance {
        return Err(ContractError::Std(StdError::Overflow));
    }
    let i = match store.bank.find(&voter_id) {
        Some(i) => i,
        None => {
            return Err(ContractError::NotYetVoted);
        },
    };
    purge_locks(store, i);
    let ghost mid = *store;
    let ghost locks = mid.bank.vals@[i as int].locked_share@;
    let kept = drop_locks_on(&store.bank.vals[i].locked_share, poll_id);
    store.bank.vals[i].locked_share = kept;
    match store.poll_voters[p].find(&voter_id) {
        Some(r) => {
            store.poll_voters[p].swap_remove(r);
        },
        None => {},
    }
    match info.vote {
        VoteOption::Yes => {
            store.polls[p].yes_votes = store.polls[p].yes_votes - info.balance;
        },
        VoteOption::No => {
            store.polls[p].no_votes = store.polls[p].no_votes - info.balance;
        },
    }
    proof {
        let f = *store;
        lemma_sum_same_shares(f.bank.vals@, mid.bank.vals@);
        assert forall|x: int| 0 <= x < f.bank.vals@.len() implies entry_ok(
            #[trigger] f.bank.vals@[x],
            f.state.poll_count,
        ) by {
            if x == i {
                let l = f.bank.vals@[x].locked_share@;
                assert forall|y: int| 0 <= y < l.len() implies 1 <= (#[trigger] l[y]).0
                    <= f.state.poll_count && l[y].1.balance <= u64::MAX by {
                    lemma_locks_except(locks, poll_id, l[y]);
                }
            }
        }
        assert forall|q: u64, k: Seq<char>| #[trigger]
            f.voter(q, k) == if k == voter && (q == poll_id || (has_lock(
                pre.member(voter).locked_share,
                q,
            ) && !pre.in_progress(q))) {
                None
            } else {
                pre.voter(q, k)
            } by {
            if 1 <= q <= f.poll_voters@.len() {
                if q != poll_id {
                    assert(f.voter(q, k) == mid.voter(q, k));
                }
            }
        }
        assert forall|q: int, r: int|
            0 <= q < f.polls@.len() && f.polls@[q].status == PollStatus::InProgress && 0 <= r
                < f.poll_voters@[q].keys@.len() implies has_lock(
            f.member((#[trigger] f.poll_voters@[q].keys@[r])@).locked_share,
            (q + 1) as u64,
        ) by {
            let k = f.poll_voters@[q].keys@[r]@;
            if q != p && k == voter {
                lemma_except_has_lock(locks, poll_id, (q + 1) as u64);
            }
        }
    }
    Ok(
        Response::of(
            Event::CancelVote {
                poll_id,
                amount: info.balance,
                voter: voter_id,
                vote_option: info.vote,
            },
        ),
    )
}

} // verus!
