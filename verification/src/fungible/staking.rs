use vstd::prelude::*;
use crate::accounting::{
    drop_stale_records, has_lock, lemma_live_sub, lemma_sum_push, lemma_sum_update, live_locks,
    max_balance, max_live_lock,
};
use crate::error::{ContractError, StdError};
use crate::fungible::state::{advances, Staker, State, Store, TokenManager};
use crate::math::{checked_mul_div, multiply_ratio};
use crate::response::{Event, Message, Response};
use crate::table::lemma_key_push;

verus! {

/// No staker but `key` differs between `pre` and `post`.
pub open spec fn only_staker_changed(pre: Store, post: Store, key: Seq<char>) -> bool {
    forall|k: Seq<char>|
        k != key ==> #[trigger] post.staker(k) == pre.staker(k) && (post.bank.has(k)
            <==> pre.bank.has(k))
}

/// The tokens the governance holds for its stakers: its token balance less
/// the deposits of the polls in progress. Nothing when the deposits exceed
/// the balance.
pub open spec fn staked_balance(pre: Store, balance: u128) -> Option<u128> {
    if balance < pre.state.total_deposit {
        None
    } else {
        Some((balance - pre.state.total_deposit) as u128)
    }
}

/// `balance` less the deposits of the polls in progress.
pub fn total_balance(store: &Store, balance: u128) -> (r: Result<u128, ContractError>)
    ensures
        match staked_balance(*store, balance) {
            Some(t) => r == Ok::<u128, ContractError>(t),
            None => r == Err::<u128, ContractError>(ContractError::Std(StdError::Overflow)),
        },
{
    if balance < store.state.total_deposit {
        Err(ContractError::Std(StdError::Overflow))
    } else {
        Ok(balance - store.state.total_deposit)
    }
}

/// The error of a ratio that could not be taken over `denominator`.
pub open spec fn ratio_error(denominator: u128) -> ContractError {
    if denominator == 0 {
        ContractError::Std(StdError::DivideByZero)
    } else {
        ContractError::Std(StdError::Overflow)
    }
}

/// `value * numerator / denominator`, rounded down.
pub open spec fn ratio_spec(value: u128, numerator: u128, denominator: u128) -> Result<
    u128,
    ContractError,
> {
    match checked_mul_div(value, numerator, denominator) {
        Some(q) => Ok(q),
        None => Err(ratio_error(denominator)),
    }
}

/// `value * numerator / denominator`, rounded down; an error when the
/// denominator is zero or the result leaves 128 bits.
pub fn ratio(value: u128, numerator: u128, denominator: u128) -> (r: Result<u128, ContractError>)
    ensures
        r == ratio_spec(value, numerator, denominator),
{
    match multiply_ratio(value, numerator, denominator) {
        Some(q) => Ok(q),
        None => {
            if denominator == 0 {
                Err(ContractError::Std(StdError::DivideByZero))
            } else {
                Err(ContractError::Std(StdError::Overflow))
            }
        },
    }
}

/// The share that staking `amount` earns, when `balance` is the token
/// balance with the amount already in it: the amount itself while nothing
/// is staked, else the amount in proportion of the total share to the
/// staked balance before. An error when the amount is zero, the balance
/// does not cover deposits and amount, or a number leaves 128 bits.
pub open spec fn stake_share(pre: Store, balance: u128, amount: u128) -> Result<u128, ContractError> {
    if amount == 0 {
        Err(ContractError::InsufficientFunds)
    } else if balance < pre.state.total_deposit + amount {
        Err(ContractError::Std(StdError::Overflow))
    } else {
        let before = (balance - pre.state.total_deposit - amount) as u128;
        let share = if before == 0 || pre.state.total_share == 0 {
            Some(amount)
        } else {
            checked_mul_div(amount, pre.state.total_share, before)
        };
        match share {
            None => Err(ContractError::Std(StdError::Overflow)),
            Some(s) => if pre.state.total_share + s > u128::MAX {
                Err(ContractError::Std(StdError::Overflow))
            } else {
                Ok(s)
            },
        }
    }
}

/// What staking does: the staker's share and the total share grow by
/// `share`. Nothing else changes.
pub open spec fn staked(pre: Store, post: Store, sender: Seq<char>, share: u128) -> bool {
    &&& post.config == pre.config
    &&& post.polls == pre.polls
    &&& post.poll_voters == pre.poll_voters
    &&& post.tmp_poll_id == pre.tmp_poll_id
    &&& post.state == State { total_share: (pre.state.total_share + share) as u128, ..pre.state }
    &&& post.bank.has(sender)
    &&& only_staker_changed(pre, post, sender)
    &&& post.staker(sender) == Staker {
        share: (pre.staker(sender).share + share) as u128,
        ..pre.staker(sender)
    }
}

/// Finds the bank entry of `key`, making a zero entry if there is none.
/// Every staker reads as before.
pub fn ensure_staker(store: &mut Store, key: &String) -> (i: usize)
    requires
        old(store).inv(),
    ensures
        final(store).inv(),
        final(store).config == old(store).config,
        final(store).state == old(store).state,
        final(store).polls == old(store).polls,
        final(store).poll_voters == old(store).poll_voters,
        final(store).tmp_poll_id == old(store).tmp_poll_id,
        final(store).bank.has(key@),
        i == final(store).bank.index_of(key@),
        i < final(store).bank.vals@.len(),
        final(store).bank.keys@[i as int]@ == key@,
        forall|k: Seq<char>| #[trigger] final(store).staker(k) == old(store).staker(k),
        forall|k: Seq<char>| k != key@ ==> (final(store).bank.has(k) <==> old(store).bank.has(k)),
{
    match store.bank.find(key) {
        Some(i) => i,
        None => {
            let tm = TokenManager::new();
            let k = key.clone();
            proof {
                lemma_key_push(store.bank.keys@, k);
                lemma_sum_push(store.bank.vals@, tm);
            }
            let i = store.bank.insert(k, tm);
            i
        },
    }
}

/// Credits a share for `amount` tokens that `sender` has sent in. `balance`
/// is the governance's token balance, the amount included.
pub fn stake_voting_tokens(store: &mut Store, balance: u128, sender: String, amount: u128) -> (r:
    Result<Response, ContractError>)
    requires
        old(store).inv(),
    ensures
        final(store).inv(),
        advances(*old(store), *final(store)),
        match r {
            Ok(resp) => {
                &&& stake_share(*old(store), balance, amount) is Ok
                &&& staked(
                    *old(store),
                    *final(store),
                    sender@,
                    stake_share(*old(store), balance, amount)->Ok_0,
                )
                &&& resp.event == Event::Staking {
                    sender,
                    share: stake_share(*old(store), balance, amount)->Ok_0,
                    amount,
                }
                &&& resp.messages@.len() == 0
            },
            Err(e) => stake_share(*old(store), balance, amount) == Err::<u128, ContractError>(e)
                && *final(store) == *old(store),
        },
{
    let ghost pre = *store;
    if amount == 0 {
        return Err(ContractError::InsufficientFunds);
    }
    if balance < store.state.total_deposit || balance - store.state.total_deposit < amount {
        return Err(ContractError::Std(StdError::Overflow));
    }
    let before = balance - store.state.total_deposit - amount;
    let total_share = store.state.total_share;
    let share = if before == 0 || total_share == 0 {
        amount
    } else {
        match multiply_ratio(amount, total_share, before) {
            Some(s) => s,
            None => {
                return Err(ContractError::Std(StdError::Overflow));
            },
        }
    };
    if total_share > u128::MAX - share {
        return Err(ContractError::Std(StdError::Overflow));
    }
    let i = ensure_staker(store, &sender);
    let ghost mid = *store;
    proof {
        lemma_sum_update(mid.bank.vals@, i as int, mid.bank.vals@[i as int]);
    }
    store.bank.vals[i].share = store.bank.vals[i].share + share;
    store.state.total_share = total_share + share;
    proof {
        lemma_sum_update(mid.bank.vals@, i as int, store.bank.vals@[i as int]);
        assert forall|k: Seq<char>| k != sender@ implies #[trigger] store.staker(k) == pre.staker(k)
            && (store.bank.has(k) <==> pre.bank.has(k)) by {
            assert(mid.staker(k) == pre.staker(k));
        }
        assert(mid.staker(sender@) == pre.staker(sender@));
    }
    Ok(Response::of(Event::Staking { sender, share, amount }))
}

/// The largest amount `key` has locked in polls that are still in progress.
pub open spec fn locked_amount(pre: Store, key: Seq<char>) -> u128 {
    max_balance(live_locks(pre.polls@, pre.staker(key).locked_balance))
}

/// The votes on record after the stale locks of `key` are dropped: gone are
/// those of `key` in polls that are over and that `key` held a lock on.
pub open spec fn records_purged(pre: Store, post: Store, key: Seq<char>) -> bool {
    &&& post.poll_voters@.len() == pre.poll_voters@.len()
    &&& forall|q: u64, k: Seq<char>| #[trigger]
        post.voter(q, k) == if k == key && has_lock(pre.staker(key).locked_balance, q)
            && !pre.in_progress(q) {
            None
        } else {
            pre.voter(q, k)
        }
}

/// What dropping a staker's stale locks does: the staker keeps the locks on
/// polls in progress and loses the others, and with each lost lock the vote
/// recorded for the staker in that poll. Nothing else changes.
pub open spec fn purged(pre: Store, post: Store, key: Seq<char>) -> bool {
    &&& post.config == pre.config
    &&& post.state == pre.state
    &&& post.polls == pre.polls
    &&& post.tmp_poll_id == pre.tmp_poll_id
    &&& post.bank.keys == pre.bank.keys
    &&& only_staker_changed(pre, post, key)
    &&& post.staker(key) == Staker {
        locked_balance: live_locks(pre.polls@, pre.staker(key).locked_balance),
        ..pre.staker(key)
    }
    &&& records_purged(pre, post, key)
}

/// Drops the stale locks of the staker at position `i` of the bank.
pub fn purge_locks(store: &mut Store, i: usize)
    requires
        old(store).inv(),
        i < old(store).bank.vals@.len(),
    ensures
        final(store).inv(),
        purged(*old(store), *final(store), old(store).bank.keys@[i as int]@),
        final(store).bank.vals@.len() == old(store).bank.vals@.len(),
        final(store).bank.vals@[i as int].share == old(store).bank.vals@[i as int].share,
{
    let ghost pre = *store;
    let ghost locks = store.bank.vals@[i as int].locked_balance@;
    let kept = drop_stale_records(
        &store.polls,
        &mut store.poll_voters,
        &store.bank.keys[i],
        &store.bank.vals[i].locked_balance,
    );
    store.bank.vals[i].locked_balance = kept;
    proof {
        let tm = store.bank.vals@[i as int];
        lemma_sum_update(pre.bank.vals@, i as int, tm);
        assert forall|x: int, j: int|
            0 <= x < store.bank.vals@.len() && 0 <= j < store.bank.vals@[x].locked_balance@.len() implies 1
            <= (#[trigger] store.bank.vals@[x].locked_balance@[j]).0 <= store.state.poll_count by {
            if x == i {
                lemma_live_sub(pre.polls@, locks, j);
            }
        }
    }
}

/// What a withdrawal takes: a share and the tokens paid out for it.
pub struct Withdrawal {
    pub share: u128,
    pub amount: u128,
    pub locked_share: u128,
}

/// What a withdrawal by `sender` would take, when `balance` is the
/// governance's token balance. The locked amount, in proportion of the total
/// share to the staked balance, stays. With no amount named, all the rest of
/// the share goes, paid out in proportion of the staked balance to the total
/// share; with an amount named, that amount is paid out for its proportion
/// of the total share, at least one unit of share. An error when the sender
/// has no entry, a number cannot be computed, or the share to take and the
/// locked share together exceed the sender's share.
pub open spec fn withdrawal(pre: Store, balance: u128, sender: Seq<char>, amount: Option<u128>)
    -> Result<Withdrawal, ContractError> {
    let share = pre.staker(sender).share;
    let total_share = pre.state.total_share;
    if !pre.bank.has(sender) {
        Err(ContractError::NothingStaked)
    } else if staked_balance(pre, balance) is None {
        Err(ContractError::Std(StdError::Overflow))
    } else {
        let total = staked_balance(pre, balance)->0;
        match ratio_spec(locked_amount(pre, sender), total_share, total) {
            Err(e) => Err(e),
            Ok(locked_share) => match amount {
                None => if locked_share > share {
                    Err(ContractError::Std(StdError::Overflow))
                } else {
                    match ratio_spec((share - locked_share) as u128, total, total_share) {
                        Err(e) => Err(e),
                        Ok(paid) => Ok(
                            Withdrawal { share: (share - locked_share) as u128, amount: paid, locked_share },
                        ),
                    }
                },
                Some(a) => match ratio_spec(a, total_share, total) {
                    Err(e) => Err(e),
                    Ok(s) => {
                        let take = if s < 1 {
                            1u128
                        } else {
                            s
                        };
                        if locked_share + take > share {
                            Err(ContractError::InvalidWithdrawAmount)
                        } else {
                            Ok(Withdrawal { share: take, amount: a, locked_share })
                        }
                    },
                },
            },
        }
    }
}

/// What a withdrawal does: the stale locks of the staker go, with the votes
/// recorded under them; the staker's share and the total share shrink by
/// `share`.
pub open spec fn withdrawn(pre: Store, post: Store, sender: Seq<char>, share: u128) -> bool {
    &&& post.config == pre.config
    &&& post.polls == pre.polls
    &&& post.tmp_poll_id == pre.tmp_poll_id
    &&& post.state == State { total_share: (pre.state.total_share - share) as u128, ..pre.state }
    &&& post.bank.keys == pre.bank.keys
    &&& only_staker_changed(pre, post, sender)
    &&& post.staker(sender) == Staker {
        share: (pre.staker(sender).share - share) as u128,
        locked_balance: live_locks(pre.polls@, pre.staker(sender).locked_balance),
    }
    &&& records_purged(pre, post, sender)
}

/// Takes staked tokens out: `amount` of them, or all that are not locked
/// when no amount is named. `balance` is the governance's token balance.
/// The host is told to pay the tokens out to `sender`.
pub fn withdraw_voting_tokens(store: &mut Store, balance: u128, sender: String, amount: Option<u128>) -> (r:
    Result<Response, ContractError>)
    requires
        old(store).inv(),
    ensures
        final(store).inv(),
        advances(*old(store), *final(store)),
        match r {
            Ok(resp) => {
                &&& withdrawal(*old(store), balance, sender@, amount) matches Ok(w)
                &&& w.share + w.locked_share <= old(store).staker(sender@).share
                &&& withdrawn(*old(store), *final(store), sender@, w.share)
                &&& resp.event == Event::Withdraw { recipient: sender, amount: w.amount }
                &&& resp.messages@.len() == 1
                &&& resp.messages@[0] == Message::Transfer {
                    token: old(store).config.cw20_token,
                    recipient: sender,
                    amount: w.amount,
                }
            },
            Err(e) => withdrawal(*old(store), balance, sender@, amount) == Err::<
                Withdrawal,
                ContractError,
            >(e) && *final(store) == *old(store),
        },
{
    let ghost pre = *store;
    let i = match store.bank.find(&sender) {
        Some(i) => i,
        None => {
            return Err(ContractError::NothingStaked);
        },
    };
    let total = match total_balance(store, balance) {
        Ok(t) => t,
        Err(e) => {
            return Err(e);
        },
    };
    let total_share = store.state.total_share;
    let share = store.bank.vals[i].share;
    let locked = max_live_lock(&store.polls, &store.bank.vals[i].locked_balance);
    let locked_share = match ratio(locked, total_share, total) {
        Ok(s) => s,
        Err(e) => {
            return Err(e);
        },
    };
    let take: u128;
    let paid: u128;
    match amount {
        None => {
            if locked_share > share {
                return Err(ContractError::Std(StdError::Overflow));
            }
            take = share - locked_share;
            paid = match ratio(take, total, total_share) {
                Ok(p) => p,
                Err(e) => {
                    return Err(e);
                },
            };
        },
        Some(a) => {
            let s = match ratio(a, total_share, total) {
                Ok(s) => s,
                Err(e) => {
                    return Err(e);
                },
            };
            take = if s < 1 {
                1
            } else {
                s
            };
            if locked_share > share || take > share - locked_share {
                return Err(ContractError::InvalidWithdrawAmount);
            }
            paid = a;
        },
    }
    purge_locks(store, i);
    let ghost mid = *store;
    proof {
        lemma_sum_update(mid.bank.vals@, i as int, mid.bank.vals@[i as int]);
    }
    store.bank.vals[i].share = share - take;
    store.state.total_share = total_share - take;
    proof {
        lemma_sum_update(mid.bank.vals@, i as int, store.bank.vals@[i as int]);
        assert forall|k: Seq<char>| k != sender@ implies #[trigger] store.staker(k) == pre.staker(k)
            && (store.bank.has(k) <==> pre.bank.has(k)) by {
            assert(mid.staker(k) == pre.staker(k));
        }
        assert forall|q: u64, k: Seq<char>| #[trigger]
            store.voter(q, k) == if k == sender@ && has_lock(pre.staker(sender@).locked_balance, q)
                && !pre.in_progress(q) {
                None
            } else {
                pre.voter(q, k)
            } by {
            assert(store.voter(q, k) == mid.voter(q, k));
        }
    }
    let token = store.config.cw20_token.clone();
    let recipient = sender.clone();
    let mut messages: Vec<Message> = Vec::new();
    messages.push(Message::Transfer { token, recipient, amount: paid });
    Ok(Response { event: Event::Withdraw { recipient: sender, amount: paid }, messages })
}

} // verus!
