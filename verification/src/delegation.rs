use vstd::prelude::*;
use crate::accounting::{has_live_lock, has_lock, lemma_sum_same_shares, live_locks};
use crate::bank::{ensure_member, purge_locks, records_purged};
use crate::error::ContractError;
use crate::response::{Event, Response};
use crate::state::{advances, Member, no_tally_shrunk, Store, texts};
use crate::table::{
    distinct_keys, find_key, has_key, lemma_key_push, lemma_key_swap_remove, swap_removed,
};

verus! {

/// Why a delegation is refused, if it is: the voter holds a lock on a poll
/// in progress, or has delegated already.
pub open spec fn delegate_error(pre: Store, voter: Seq<char>) -> Option<ContractError> {
    if live_locks(pre.polls@, pre.member(voter).locked_share).len() > 0 {
        Some(ContractError::AlreadyVoted)
    } else if pre.member(voter).delegate_to is Some {
        Some(ContractError::AlreadyDelegated)
    } else {
        None
    }
}

/// What a delegation does: the voter loses the stale locks, with the votes
/// recorded under them, and names the delegate; the delegate lists the voter
/// last. Both get a bank entry if they had none.
pub open spec fn delegated(pre: Store, post: Store, voter: Seq<char>, delegator: Seq<char>) -> bool {
    let v = pre.member(voter);
    let d = pre.member(delegator);
    &&& post.config == pre.config
    &&& post.state == pre.state
    &&& post.polls == pre.polls
    &&& records_purged(pre, post, voter)
    &&& post.bank.has(voter)
    &&& post.bank.has(delegator)
    &&& forall|k: Seq<char>|
        k != voter && k != delegator ==> #[trigger] post.member(k) == pre.member(k) && (
        post.bank.has(k) <==> pre.bank.has(k))
    &&& post.member(voter) == Member {
        locked_share: Seq::empty(),
        delegate_to: Some(delegator),
        delegated_from: if voter == delegator {
            v.delegated_from.push(voter)
        } else {
            v.delegated_from
        },
        ..v
    }
    &&& voter != delegator ==> post.member(delegator) == Member {
        delegated_from: d.delegated_from.push(voter),
        ..d
    }
}

/// Linking a voter without delegate to a delegate keeps the store
/// consistent.
proof fn lemma_delegate(a: Store, f: Store, vi: int, di: int, vs: String, ds: String)
    requires
        a.inv(),
        0 <= vi < a.bank.vals@.len(),
        0 <= di < a.bank.vals@.len(),
        a.bank.keys@[vi]@ == vs@,
        a.bank.keys@[di]@ == ds@,
        a.bank.vals@[vi].delegate_to is None,
        f.config == a.config,
        f.state == a.state,
        f.polls == a.polls,
        f.poll_voters == a.poll_voters,
        f.bank.keys == a.bank.keys,
        f.bank.vals@.len() == a.bank.vals@.len(),
        forall|x: int|
            0 <= x < a.bank.vals@.len() && x != vi && x != di ==> #[trigger] f.bank.vals@[x]
                == a.bank.vals@[x],
        forall|x: int|
            0 <= x < a.bank.vals@.len() ==> (#[trigger] f.bank.vals@[x]).share == a.bank.vals@[x].share
                && f.bank.vals@[x].balance == a.bank.vals@[x].balance && f.bank.vals@[x].locked_share
                == a.bank.vals@[x].locked_share,
        f.bank.vals@[vi].delegate_to == Some(ds),
        f.bank.vals@[di].delegated_from@ == a.bank.vals@[di].delegated_from@.push(vs),
        vi != di ==> f.bank.vals@[vi].delegated_from == a.bank.vals@[vi].delegated_from
            && f.bank.vals@[di].delegate_to == a.bank.vals@[di].delegate_to,
    ensures
        f.inv(),
        forall|k: Seq<char>| #[trigger]
            f.bank.has(k) == a.bank.has(k) && f.bank.index_of(k) == a.bank.index_of(k),
{
    let n = a.bank.vals@.len() as int;
    lemma_sum_same_shares(f.bank.vals@, a.bank.vals@);
    lemma_key_push(a.bank.vals@[di].delegated_from@, vs);
    assert forall|i: int|
        0 <= i < n && (#[trigger] f.bank.vals@[i]).delegate_to is Some implies {
        let d = f.bank.vals@[i].delegate_to->0@;
        f.bank.has(d) && has_key(f.bank.vals@[f.bank.index_of(d)].delegated_from@, f.bank.keys@[i]@)
    } by {}
    assert forall|i: int, j: int|
        0 <= i < n && 0 <= j < f.bank.vals@[i].delegated_from@.len() implies {
        let x = (#[trigger] f.bank.vals@[i].delegated_from@[j])@;
        f.bank.has(x) && f.member(x).delegate_to == Some(f.bank.keys@[i]@)
    } by {}
}

/// Hands the vote of the member `voter_id` to the member `delegator_id`.
pub fn delegate_vote(store: &mut Store, voter_id: String, delegator_id: String) -> (r: Result<
    Response,
    ContractError,
>)
    requires
        old(store).inv(),
    ensures
        final(store).inv(),
        advances(*old(store), *final(store)),
        no_tally_shrunk(*old(store), *final(store)),
        match r {
            Ok(resp) => {
                &&& delegate_error(*old(store), voter_id@) is None
                &&& delegated(*old(store), *final(store), voter_id@, delegator_id@)
                &&& resp.event == Event::Delegate { from: voter_id, to: delegator_id }
                &&& resp.messages@.len() == 0
            },
            Err(e) => delegate_error(*old(store), voter_id@) == Some(e) && *final(store) == *old(
                store,
            ),
        },
{
    let ghost pre = *store;
    match store.bank.find(&voter_id) {
        Some(i) => {
            if has_live_lock(&store.polls, &store.bank.vals[i].locked_share) {
                return Err(ContractError::AlreadyVoted);
            }
            if store.bank.vals[i].delegate_to.is_some() {
                return Err(ContractError::AlreadyDelegated);
            }
            purge_locks(store, i);
        },
        None => {
            assert forall|q: u64, k: Seq<char>| #[trigger]
                store.voter(q, k) == if k == voter_id@ && has_lock(
                    pre.member(voter_id@).locked_share,
                    q,
                ) && !pre.in_progress(q) {
                    None
                } else {
                    pre.voter(q, k)
                } by {}
        },
    }
    let ghost purged = *store;
    let vi = ensure_member(store, &voter_id);
    let di = ensure_member(store, &delegator_id);
    let ghost a = *store;
    let ds = delegator_id.clone();
    let vs = voter_id.clone();
    store.bank.vals[vi].delegate_to = Some(ds);
    store.bank.vals[di].delegated_from.push(vs);
    proof {
        lemma_delegate(a, *store, vi as int, di as int, vs, ds);
        let f = *store;
        assert(texts(f.bank.vals@[di as int].delegated_from@) =~= texts(
            a.bank.vals@[di as int].delegated_from@,
        ).push(voter_id@));
        assert(records_purged(pre, f, voter_id@)) by {
            assert forall|q: u64, k: Seq<char>| #[trigger]
                f.voter(q, k) == if k == voter_id@ && has_lock(pre.member(voter_id@).locked_share, q)
                    && !pre.in_progress(q) {
                    None
                } else {
                    pre.voter(q, k)
                } by {
                assert(f.voter(q, k) == purged.voter(q, k));
            }
        }
        assert(a.member(delegator_id@) == purged.member(delegator_id@));
        assert(f.member(voter_id@).locked_share =~= Seq::empty());
    }
    Ok(Response::of(Event::Delegate { from: voter_id, to: delegator_id }))
}

/// Why undoing a delegation is refused, if it is: there is none.
pub open spec fn undelegate_error(pre: Store, voter: Seq<char>) -> Option<ContractError> {
    if pre.member(voter).delegate_to is None {
        Some(ContractError::NotYetDelegated)
    } else {
        None
    }
}

/// What undoing a delegation does: the voter names no delegate any more, and
/// leaves the delegate's list, where the last of the list takes the voter's
/// place.
pub open spec fn undelegated(pre: Store, post: Store, voter: Seq<char>) -> bool {
    let v = pre.member(voter);
    let delegator = v.delegate_to->0;
    let d = pre.member(delegator);
    let rest = swap_removed(d.delegated_from, d.delegated_from.index_of(voter));
    &&& post.config == pre.config
    &&& post.state == pre.state
    &&& post.polls == pre.polls
    &&& post.poll_voters == pre.poll_voters
    &&& post.bank.keys == pre.bank.keys
    &&& forall|k: Seq<char>| k != voter && k != delegator ==> #[trigger] post.member(k) == pre.member(k)
    &&& post.member(voter) == Member {
        delegate_to: None,
        delegated_from: if voter == delegator {
            rest
        } else {
            v.delegated_from
        },
        ..v
    }
    &&& voter != delegator ==> post.member(delegator) == Member { delegated_from: rest, ..d }
    &&& !post.member(delegator).delegated_from.contains(voter)
}

/// Cutting the link between a voter and the delegate keeps the store
/// consistent.
proof fn lemma_undelegate(a: Store, f: Store, vi: int, di: int, p: int)
    requires
        a.inv(),
        0 <= vi < a.bank.vals@.len(),
        0 <= di < a.bank.vals@.len(),
        a.bank.vals@[vi].delegate_to is Some,
        a.bank.vals@[vi].delegate_to->0@ == a.bank.keys@[di]@,
        0 <= p < a.bank.vals@[di].delegated_from@.len(),
        a.bank.vals@[di].delegated_from@[p]@ == a.bank.keys@[vi]@,
        f.config == a.config,
        f.state == a.state,
        f.polls == a.polls,
        f.poll_voters == a.poll_voters,
        f.bank.keys == a.bank.keys,
        f.bank.vals@.len() == a.bank.vals@.len(),
        forall|x: int|
            0 <= x < a.bank.vals@.len() && x != vi && x != di ==> #[trigger] f.bank.vals@[x]
                == a.bank.vals@[x],
        forall|x: int|
            0 <= x < a.bank.vals@.len() ==> (#[trigger] f.bank.vals@[x]).share == a.bank.vals@[x].share
                && f.bank.vals@[x].balance == a.bank.vals@[x].balance && f.bank.vals@[x].locked_share
                == a.bank.vals@[x].locked_share,
        f.bank.vals@[vi].delegate_to is None,
        f.bank.vals@[di].delegated_from@ == swap_removed(a.bank.vals@[di].delegated_from@, p),
        vi != di ==> f.bank.vals@[vi].delegated_from == a.bank.vals@[vi].delegated_from
            && f.bank.vals@[di].delegate_to == a.bank.vals@[di].delegate_to,
    ensures
        f.inv(),
        !has_key(f.bank.vals@[di].delegated_from@, a.bank.keys@[vi]@),
{
    let n = a.bank.vals@.len() as int;
    let from = a.bank.vals@[di].delegated_from@;
    lemma_sum_same_shares(f.bank.vals@, a.bank.vals@);
    lemma_key_swap_remove(from, p);
    assert forall|i: int|
        0 <= i < n && (#[trigger] f.bank.vals@[i]).delegate_to is Some implies {
        let d = f.bank.vals@[i].delegate_to->0@;
        f.bank.has(d) && has_key(f.bank.vals@[f.bank.index_of(d)].delegated_from@, f.bank.keys@[i]@)
    } by {}
    assert forall|i: int, j: int|
        0 <= i < n && 0 <= j < f.bank.vals@[i].delegated_from@.len() implies {
        let x = (#[trigger] f.bank.vals@[i].delegated_from@[j])@;
        f.bank.has(x) && f.member(x).delegate_to == Some(f.bank.keys@[i]@)
    } by {}
}

/// The texts of distinct keys hold each text at the place of its key.
pub proof fn lemma_texts_index(keys: Seq<String>, i: int)
    requires
        distinct_keys(keys),
        0 <= i < keys.len(),
    ensures
        texts(keys).index_of(keys[i]@) == i,
        texts(keys).contains(keys[i]@),
{
    let t = texts(keys);
    assert(t[i] == keys[i]@);
    let j = t.index_of(keys[i]@);
    assert(j == i);
}

/// Takes back the vote the member `voter_id` had handed to a delegate.
pub fn undelegate_vote(store: &mut Store, voter_id: String) -> (r: Result<Response, ContractError>)
    requires
        old(store).inv(),
    ensures
        final(store).inv(),
        advances(*old(store), *final(store)),
        no_tally_shrunk(*old(store), *final(store)),
        match r {
            Ok(resp) => {
                &&& undelegate_error(*old(store), voter_id@) is None
                &&& undelegated(*old(store), *final(store), voter_id@)
                &&& resp.event matches Event::Undelegate { from, to }
                &&& from == voter_id
                &&& to@ == old(store).member(voter_id@).delegate_to->0
                &&& resp.messages@.len() == 0
            },
            Err(e) => undelegate_error(*old(store), voter_id@) == Some(e) && *final(store) == *old(
                store,
            ),
        },
{
    let ghost a = *store;
    let vi = match store.bank.find(&voter_id) {
        Some(i) => i,
        None => {
            return Err(ContractError::NotYetDelegated);
        },
    };
    let delegator: String = match &store.bank.vals[vi].delegate_to {
        Some(d) => d.clone(),
        None => {
            return Err(ContractError::NotYetDelegated);
        },
    };
    let di = match store.bank.find(&delegator) {
        Some(i) => i,
        None => {
            return Err(ContractError::NotYetDelegated);
        },
    };
    let p = match find_key(&store.bank.vals[di].delegated_from, &voter_id) {
        Some(p) => p,
        None => {
            return Err(ContractError::NotYetDelegated);
        },
    };
    store.bank.vals[vi].delegate_to = None;
    store.bank.vals[di].delegated_from.swap_remove(p);
    proof {
        let f = *store;
        let from = a.bank.vals@[di as int].delegated_from@;
        lemma_undelegate(a, f, vi as int, di as int, p as int);
        lemma_texts_index(from, p as int);
        let v = a.member(voter_id@);
        let d = a.member(delegator@);
        assert(f.member(voter_id@).delegated_from =~= if voter_id@ == delegator@ {
            swap_removed(d.delegated_from, d.delegated_from.index_of(voter_id@))
        } else {
            v.delegated_from
        });
        if voter_id@ != delegator@ {
            assert(f.member(delegator@).delegated_from =~= swap_removed(
                d.delegated_from,
                d.delegated_from.index_of(voter_id@),
            ));
        }
    }
    Ok(Response::of(Event::Undelegate { from: voter_id, to: delegator }))
}

} // verus!
