use vstd::prelude::*;
use crate::accounting::{
    drop_stale_records, has_lock, lemma_live_has_lock, lemma_live_sub, lemma_max_balance_bound,
    lemma_sum_bound, lemma_sum_push, lemma_sum_update, live_locks, max_balance, max_live_lock,
    sum_shares,
};
use crate::error::{ContractError, StdError};
use crate::math::{isqrt, isqrt_spec, lemma_isqrt_bound};
use crate::state::{Member, State, Store, TokenManager};
use crate::table::lemma_key_push;
use crate::utils::PollStatus;

verus! {

/// Nothing but the bank and the total share differs between `pre` and `post`.
pub open spec fn only_bank_changed(pre: Store, post: Store) -> bool {
    &&& post.config == pre.config
    &&& post.polls == pre.polls
    &&& post.poll_voters == pre.poll_voters
    &&& post.state.contract_addr == pre.state.contract_addr
    &&& post.state.poll_count == pre.state.poll_count
}

/// No member but `key` differs between `pre` and `post`.
pub open spec fn only_member_changed(pre: Store, post: Store, key: Seq<char>) -> bool {
    forall|k: Seq<char>|
        k != key ==> #[trigger] post.member(k) == pre.member(k) && (post.bank.has(k)
            <==> pre.bank.has(k))
}

/// What minting `amount` to `key` does: the balance grows by `amount`, the
/// share becomes the integer square root of the new balance, and the total
/// share follows.
pub open spec fn minted(pre: Store, post: Store, key: Seq<char>, amount: u128) -> bool {
    let before = pre.member(key);
    let balance = before.balance + amount;
    &&& only_bank_changed(pre, post)
    &&& only_member_changed(pre, post, key)
    &&& post.bank.has(key)
    &&& post.member(key) == Member {
        balance: balance as u128,
        share: isqrt_spec(balance as nat) as u128,
        ..before
    }
    &&& post.state.total_share == pre.state.total_share - before.share + isqrt_spec(balance as nat)
}

/// Credits `amount` to the member `key`, making the entry if there is none.
/// Fails, changing nothing, when the new balance would not fit in 128 bits.
pub fn _mint(store: &mut Store, key: &String, amount: u128) -> (r: Result<(), ContractError>)
    requires
        old(store).inv(),
    ensures
        final(store).inv(),
        match r {
            Ok(_) => old(store).member(key@).balance + amount <= u128::MAX && minted(
                *old(store),
                *final(store),
                key@,
                amount,
            ),
            Err(e) => e == ContractError::Std(StdError::Overflow) && old(store).member(
                key@,
            ).balance + amount > u128::MAX && *final(store) == *old(store),
        },
{
    let ghost pre = *store;
    match store.bank.find(key) {
        Some(i) => {
            let balance = match store.bank.vals[i].balance.checked_add(amount) {
                Some(b) => b,
                None => {
                    return Err(ContractError::Std(StdError::Overflow));
                },
            };
            let share = isqrt(balance);
            let old_share = store.bank.vals[i].share;
            store.bank.vals[i].balance = balance;
            store.bank.vals[i].share = share;
            proof {
                lemma_sum_update(pre.bank.vals@, i as int, store.bank.vals@[i as int]);
                assert(store.bank.vals@ =~= pre.bank.vals@.update(i as int, store.bank.vals@[i as int]));
                lemma_shares_fit(*store);
            }
            store.state.total_share = store.state.total_share - old_share + share;
            Ok(())
        },
        None => {
            let share = isqrt(amount);
            let mut tm = TokenManager::new();
            tm.balance = amount;
            tm.share = share;
            let k = key.clone();
            proof {
                lemma_key_push(store.bank.keys@, k);
                lemma_sum_push(store.bank.vals@, tm);
            }
            store.bank.insert(k, tm);
            proof {
                lemma_shares_fit(*store);
            }
            store.state.total_share = store.state.total_share + share;
            Ok(())
        },
    }
}

/// The shares of a bank whose entries are well-formed add up within 128 bits.
pub proof fn lemma_shares_fit(s: Store)
    requires
        s.bank.vals@.len() <= usize::MAX,
        forall|i: int|
            0 <= i < s.bank.vals@.len() ==> (#[trigger] s.bank.vals@[i]).share as nat == isqrt_spec(
                s.bank.vals@[i].balance as nat,
            ),
    ensures
        sum_shares(s.bank.vals@) <= u128::MAX,
{
    assert forall|i: int| 0 <= i < s.bank.vals@.len() implies (#[trigger] s.bank.vals@[i]).share
        <= u64::MAX by {
        lemma_isqrt_bound(s.bank.vals@[i].balance as nat);
    }
    lemma_sum_bound(s.bank.vals@);
    assert(s.bank.vals@.len() * u64::MAX <= u128::MAX) by (nonlinear_arith)
        requires
            s.bank.vals@.len() <= u64::MAX,
    ;
}

/// The largest weight the member at position `i` of the bank has locked in
/// polls that are still in progress.
pub fn locked_balance(store: &Store, i: usize) -> (m: u128)
    requires
        store.inv(),
        i < store.bank.vals@.len(),
    ensures
        m == max_balance(live_locks(store.polls@, store.bank.vals@[i as int].locked_share@)),
        m <= u64::MAX,
{
    proof {
        let locks = store.bank.vals@[i as int].locked_share@;
        let live = live_locks(store.polls@, locks);
        assert forall|j: int| 0 <= j < live.len() implies (#[trigger] live[j]).1.balance <= u64::MAX by {
            lemma_live_sub(store.polls@, locks, j);
        }
        lemma_max_balance_bound(live, u64::MAX as u128);
    }
    max_live_lock(&store.polls, &store.bank.vals[i].locked_share)
}

/// What dropping a member's stale locks does: the member keeps the locks on
/// polls in progress and loses the others, and with each lost lock the vote
/// recorded for the member in that poll. Nothing else changes.
pub open spec fn purged(pre: Store, post: Store, key: Seq<char>) -> bool {
    &&& post.config == pre.config
    &&& post.state == pre.state
    &&& post.polls == pre.polls
    &&& post.bank.keys == pre.bank.keys
    &&& only_member_changed(pre, post, key)
    &&& post.member(key) == Member {
        locked_share: live_locks(pre.polls@, pre.member(key).locked_share),
        ..pre.member(key)
    }
    &&& records_purged(pre, post, key)
}

/// The votes on record after the stale locks of `key` are dropped: gone are
/// those of `key` in polls that are over and that `key` held a lock on.
pub open spec fn records_purged(pre: Store, post: Store, key: Seq<char>) -> bool {
    &&& post.poll_voters@.len() == pre.poll_voters@.len()
    &&& forall|q: u64, k: Seq<char>| #[trigger]
        post.voter(q, k) == if k == key && has_lock(pre.member(key).locked_share, q)
            && !pre.in_progress(q) {
            None
        } else {
            pre.voter(q, k)
        }
}

/// Drops the stale locks of the member at position `i` of the bank.
pub fn purge_locks(store: &mut Store, i: usize)
    requires
        old(store).inv(),
        i < old(store).bank.vals@.len(),
    ensures
        final(store).inv(),
        purged(*old(store), *final(store), old(store).bank.keys@[i as int]@),
        final(store).bank.vals@.len() == old(store).bank.vals@.len(),
        forall|x: int|
            0 <= x < old(store).bank.vals@.len() && x != i ==> final(store).bank.vals@[x] == old(
                store,
            ).bank.vals@[x],
        final(store).bank.vals@[i as int].share == old(store).bank.vals@[i as int].share,
        final(store).bank.vals@[i as int].balance == old(store).bank.vals@[i as int].balance,
        final(store).bank.vals@[i as int].delegate_to == old(store).bank.vals@[i as int].delegate_to,
        final(store).bank.vals@[i as int].delegated_from == old(store).bank.vals@[i as int].delegated_from,
        final(store).bank.vals@[i as int].locked_share@ == live_locks(
            old(store).polls@,
            old(store).bank.vals@[i as int].locked_share@,
        ),
{
    let ghost pre = *store;
    let ghost key = store.bank.keys@[i as int]@;
    let ghost locks = store.bank.vals@[i as int].locked_share@;
    let kept = drop_stale_records(
        &store.polls,
        &mut store.poll_voters,
        &store.bank.keys[i],
        &store.bank.vals[i].locked_share,
    );
    store.bank.vals[i].locked_share = kept;
    proof {
        let tm = store.bank.vals@[i as int];
        lemma_sum_update(pre.bank.vals@, i as int, tm);
        assert forall|x: int| 0 <= x < tm.locked_share@.len() implies 1 <= (#[trigger] tm.locked_share@[x]).0
            <= store.state.poll_count && tm.locked_share@[x].1.balance <= u64::MAX by {
            lemma_live_sub(pre.polls@, locks, x);
        }
        assert forall|p: int, r: int|
            0 <= p < store.polls@.len() && store.polls@[p].status == PollStatus::InProgress && 0 <= r
                < store.poll_voters@[p].keys@.len() implies has_lock(
            store.member((#[trigger] store.poll_voters@[p].keys@[r])@).locked_share,
            (p + 1) as u64,
        ) by {
            let k = pre.poll_voters@[p].keys@[r]@;
            if k == key {
                lemma_live_has_lock(pre.polls@, locks, (p + 1) as u64);
            }
        }
    }
}

/// The locked-vote reduction: drops the stale locks of the member at
/// position `i` of the bank, and returns the largest weight among the rest.
pub fn compute_locked_balance(store: &mut Store, i: usize) -> (m: u128)
    requires
        old(store).inv(),
        i < old(store).bank.vals@.len(),
    ensures
        final(store).inv(),
        purged(*old(store), *final(store), old(store).bank.keys@[i as int]@),
        m == max_balance(final(store).member(old(store).bank.keys@[i as int]@).locked_share),
{
    let m = locked_balance(store, i);
    purge_locks(store, i);
    m
}

/// The largest weight `key` has locked in polls that are still in progress.
pub open spec fn locked_weight(pre: Store, key: Seq<char>) -> u128 {
    max_balance(live_locks(pre.polls@, pre.member(key).locked_share))
}

/// Why a burn is refused, if it is: the member has no entry, or the amount
/// together with the square of the locked weight exceeds the balance.
pub open spec fn burn_error(pre: Store, key: Seq<char>, amount: u128) -> Option<ContractError> {
    if !pre.bank.has(key) {
        Some(ContractError::NothingStaked)
    } else if locked_weight(pre, key) * locked_weight(pre, key) + amount > pre.member(key).balance {
        Some(ContractError::InvalidWithdrawAmount)
    } else {
        None
    }
}

/// What burning `amount` from `key` does: the stale locks go, with the votes
/// recorded under them; the balance shrinks by `amount`, the share becomes
/// the integer square root of the new balance, and the total share follows.
pub open spec fn burned(pre: Store, post: Store, key: Seq<char>, amount: u128) -> bool {
    let before = pre.member(key);
    let balance = before.balance - amount;
    &&& post.config == pre.config
    &&& post.polls == pre.polls
    &&& post.state == State {
        total_share: (pre.state.total_share - before.share + isqrt_spec(balance as nat)) as u128,
        ..pre.state
    }
    &&& post.bank.keys == pre.bank.keys
    &&& only_member_changed(pre, post, key)
    &&& post.member(key) == Member {
        balance: balance as u128,
        share: isqrt_spec(balance as nat) as u128,
        locked_share: live_locks(pre.polls@, before.locked_share),
        ..before
    }
    &&& records_purged(pre, post, key)
}

/// Finds the member whose tokens are to be burnt and tests whether the burn
/// is in order.
pub fn check_burn(store: &Store, key: &String, amount: u128) -> (r: Result<usize, ContractError>)
    requires
        store.inv(),
    ensures
        match r {
            Ok(i) => burn_error(*store, key@, amount) is None && i == store.bank.index_of(key@) && i
                < store.bank.vals@.len() && store.bank.keys@[i as int]@ == key@,
            Err(e) => burn_error(*store, key@, amount) == Some(e),
        },
{
    let i = match store.bank.find(key) {
        Some(i) => i,
        None => {
            return Err(ContractError::NothingStaked);
        },
    };
    let locked = locked_balance(store, i);
    assert(locked * locked <= u128::MAX) by (nonlinear_arith)
        requires
            0 <= locked <= u64::MAX,
    ;
    let locked_amount = locked * locked;
    let balance = store.bank.vals[i].balance;
    if locked_amount > balance || amount > balance - locked_amount {
        return Err(ContractError::InvalidWithdrawAmount);
    }
    Ok(i)
}

/// Burns `amount` from the member at position `i` of the bank.
pub fn apply_burn(store: &mut Store, i: usize, amount: u128)
    requires
        old(store).inv(),
        i < old(store).bank.vals@.len(),
        amount <= old(store).bank.vals@[i as int].balance,
    ensures
        final(store).inv(),
        burned(*old(store), *final(store), old(store).bank.keys@[i as int]@, amount),
{
    let ghost pre = *store;
    let ghost key = store.bank.keys@[i as int]@;
    purge_locks(store, i);
    let ghost mid = *store;
    let balance = store.bank.vals[i].balance - amount;
    let share = isqrt(balance);
    let old_share = store.bank.vals[i].share;
    store.bank.vals[i].balance = balance;
    store.bank.vals[i].share = share;
    proof {
        lemma_sum_update(mid.bank.vals@, i as int, store.bank.vals@[i as int]);
        assert(store.bank.vals@ =~= mid.bank.vals@.update(i as int, store.bank.vals@[i as int]));
        lemma_shares_fit(*store);
    }
    store.state.total_share = store.state.total_share - old_share + share;
    proof {
        assert forall|q: u64, k: Seq<char>| #[trigger]
            store.voter(q, k) == if k == key && has_lock(pre.member(key).locked_share, q)
                && !pre.in_progress(q) {
                None
            } else {
                pre.voter(q, k)
            } by {
            assert(store.voter(q, k) == mid.voter(q, k));
        }
    }
}

/// Burns `amount` from the member `key`. Only what is not locked can be
/// burnt: the square of the largest weight locked in a poll in progress
/// stays.
pub fn _burn(store: &mut Store, key: &String, amount: u128) -> (r: Result<(), ContractError>)
    requires
        old(store).inv(),
    ensures
        final(store).inv(),
        match r {
            Ok(_) => burn_error(*old(store), key@, amount) is None && burned(
                *old(store),
                *final(store),
                key@,
                amount,
            ),
            Err(e) => burn_error(*old(store), key@, amount) == Some(e) && *final(store) == *old(
                store,
            ),
        },
{
    match check_burn(store, key, amount) {
        Ok(i) => {
            apply_burn(store, i, amount);
            Ok(())
        },
        Err(e) => Err(e),
    }
}

/// Finds the bank entry of `key`, making a zero entry if there is none.
/// Every member reads as before.
pub fn ensure_member(store: &mut Store, key: &String) -> (i: usize)
    requires
        old(store).inv(),
    ensures
        final(store).inv(),
        only_bank_changed(*old(store), *final(store)),
        final(store).state == old(store).state,
        final(store).bank.has(key@),
        i == final(store).bank.index_of(key@),
        i < final(store).bank.vals@.len(),
        final(store).bank.keys@[i as int]@ == key@,
        forall|k: Seq<char>| #[trigger] final(store).member(k) == old(store).member(k),
        forall|k: Seq<char>| k != key@ ==> (final(store).bank.has(k) <==> old(store).bank.has(k)),
        forall|k: Seq<char>|
            old(store).bank.has(k) ==> final(store).bank.has(k) && final(store).bank.index_of(k)
                == old(store).bank.index_of(k),
        old(store).bank.vals@.len() <= final(store).bank.vals@.len(),
        forall|x: int|
            0 <= x < old(store).bank.vals@.len() ==> final(store).bank.vals@[x] == old(
                store,
            ).bank.vals@[x] && final(store).bank.keys@[x] == old(store).bank.keys@[x],
{
    let ghost pre = *store;
    match store.bank.find(key) {
        Some(i) => i,
        None => {
            let tm = TokenManager::new();
            let k = key.clone();
            proof {
                lemma_key_push(store.bank.keys@, k);
                lemma_sum_push(store.bank.vals@, tm);
                assert(0nat * 0nat <= 0 < (0nat + 1) * (0nat + 1)) by (nonlinear_arith);
                crate::math::lemma_isqrt_is(0, 0);
            }
            let i = store.bank.insert(k, tm);
            proof {
                assert forall|k: Seq<char>| #[trigger] store.member(k) == pre.member(k) by {}
            }
            i
        },
    }
}

} // verus!
