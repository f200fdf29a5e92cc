use vstd::prelude::*;
use crate::accounting::{lemma_sum_same_shares, poll_index};
use crate::error::{ContractError, StdError};
use crate::fungible::staking::{
    ensure_staker, only_staker_changed, ratio, ratio_spec, staked_balance, total_balance,
};
use crate::fungible::state::{
    advances, lemma_deposits_push, lemma_deposits_update, Poll, Staker, State, Store,
};
use crate::msg::PollExecuteMsg;
use crate::response::{Event, Message, Response};
use crate::table::{lemma_key_push, Table};
use crate::utils::{
    opt_view, PollStatus, text_error, validate_texts, Verdict, verdict, verdict_spec, VoteInfo,
    VoteOption,
};

verus! {

/// The id under which replies to the sub-call that runs a poll's messages
/// come back.
pub const POLL_EXECUTE_REPLY_ID: u64 = 1;

/// Why a proposal is refused, if it is: its texts are out of bounds, the
/// tokens sent along do not cover the proposal deposit, or a counter would
/// leave its range.
pub open spec fn create_poll_error(
    pre: Store,
    height: u64,
    deposit_amount: u128,
    title: Seq<char>,
    description: Seq<char>,
    link: Option<Seq<char>>,
) -> Option<ContractError> {
    match text_error(title, description, link) {
        Some(e) => Some(ContractError::ValidateMsg(e)),
        None => if deposit_amount < pre.config.proposal_deposit {
            Some(ContractError::InsufficientProposalDeposit(pre.config.proposal_deposit))
        } else if pre.state.poll_count + 1 > u64::MAX || pre.state.total_deposit + deposit_amount
            > u128::MAX || height + pre.config.voting_period > u64::MAX {
            Some(ContractError::Std(StdError::Overflow))
        } else {
            None
        },
    }
}

/// What creating a poll does: the poll counter grows by one and the total
/// deposit by the tokens sent along; the new poll, numbered by the new
/// count, starts in progress with empty tallies, no snapshot, no votes on
/// record, and its end `voting_period` blocks after `height`.
pub open spec fn poll_created(
    pre: Store,
    post: Store,
    height: u64,
    proposer: String,
    deposit_amount: u128,
    title: String,
    description: String,
    link: Option<String>,
    execute_msgs: Option<Vec<PollExecuteMsg>>,
) -> bool {
    &&& post.config == pre.config
    &&& post.bank == pre.bank
    &&& post.tmp_poll_id == pre.tmp_poll_id
    &&& post.state == State {
        poll_count: (pre.state.poll_count + 1) as u64,
        total_deposit: (pre.state.total_deposit + deposit_amount) as u128,
        ..pre.state
    }
    &&& post.polls@ == pre.polls@.push(
        Poll {
            id: (pre.state.poll_count + 1) as u64,
            creator: proposer,
            status: PollStatus::InProgress,
            yes_votes: 0,
            no_votes: 0,
            end_height: (height + pre.config.voting_period) as u64,
            title,
            description,
            link,
            execute_data: execute_msgs,
            deposit_amount,
            total_balance_at_end_poll: None,
            staked_amount: None,
        },
    )
    &&& post.poll_voters@.len() == pre.poll_voters@.len() + 1
    &&& post.poll_voters@.last().keys@.len() == 0
    &&& forall|i: int|
        0 <= i < pre.poll_voters@.len() ==> #[trigger] post.poll_voters@[i] == pre.poll_voters@[i]
}

/// Opens a poll for `proposer`, who has sent `deposit_amount` tokens along,
/// at block `height`.
pub fn create_poll(
    store: &mut Store,
    height: u64,
    proposer: String,
    deposit_amount: u128,
    title: String,
    description: String,
    link: Option<String>,
    execute_msgs: Option<Vec<PollExecuteMsg>>,
) -> (r: Result<Response, ContractError>)
    requires
        old(store).inv(),
    ensures
        final(store).inv(),
        advances(*old(store), *final(store)),
        match r {
            Ok(resp) => {
                &&& create_poll_error(
                    *old(store),
                    height,
                    deposit_amount,
                    title@,
                    description@,
                    opt_view(link),
                ) is None
                &&& poll_created(
                    *old(store),
                    *final(store),
                    height,
                    proposer,
                    deposit_amount,
                    title,
                    description,
                    link,
                    execute_msgs,
                )
                &&& resp.event == Event::CreatePoll {
                    creator: proposer,
                    poll_id: (old(store).state.poll_count + 1) as u64,
                    end_height: (height + old(store).config.voting_period) as u64,
                }
                &&& resp.messages@.len() == 0
            },
            Err(e) => create_poll_error(
                *old(store),
                height,
                deposit_amount,
                title@,
                description@,
                opt_view(link),
            ) == Some(e) && *final(store) == *old(store),
        },
{
    match validate_texts(title.as_str(), description.as_str(), &link) {
        Err(e) => {
            return Err(e);
        },
        Ok(_) => {},
    }
    if deposit_amount < store.config.proposal_deposit {
        return Err(ContractError::InsufficientProposalDeposit(store.config.proposal_deposit));
    }
    let poll_id = match store.state.poll_count.checked_add(1) {
        Some(n) => n,
        None => {
            return Err(ContractError::Std(StdError::Overflow));
        },
    };
    let total_deposit = match store.state.total_deposit.checked_add(deposit_amount) {
        Some(n) => n,
        None => {
            return Err(ContractError::Std(StdError::Overflow));
        },
    };
    let end_height = match height.checked_add(store.config.voting_period) {
        Some(h) => h,
        None => {
            return Err(ContractError::Std(StdError::Overflow));
        },
    };
    let creator = proposer.clone();
    let new_poll = Poll {
        id: poll_id,
        creator: proposer,
        status: PollStatus::InProgress,
        yes_votes: 0,
        no_votes: 0,
        end_height,
        title,
        description,
        link,
        execute_data: execute_msgs,
        deposit_amount,
        total_balance_at_end_poll: None,
        staked_amount: None,
    };
    proof {
        lemma_deposits_push(store.polls@, new_poll);
    }
    store.state.poll_count = poll_id;
    store.state.total_deposit = total_deposit;
    store.polls.push(new_poll);
    store.poll_voters.push(Table::new());
    Ok(Response::of(Event::CreatePoll { creator, poll_id, end_height }))
}

/// The tally of `poll` on the side of `vote`.
pub open spec fn tally_of(poll: Poll, vote: VoteOption) -> u128 {
    match vote {
        VoteOption::Yes => poll.yes_votes,
        VoteOption::No => poll.no_votes,
    }
}

/// `poll` with `amount` more on the side of `vote`.
pub open spec fn tally_added(poll: Poll, vote: VoteOption, amount: u128) -> Poll {
    match vote {
        VoteOption::Yes => Poll { yes_votes: (poll.yes_votes + amount) as u128, ..poll },
        VoteOption::No => Poll { no_votes: (poll.no_votes + amount) as u128, ..poll },
    }
}

/// `poll` with its snapshot taken, if `height` lies within the snapshot
/// period before the end and no snapshot was taken before: the first to
/// take it wins.
pub open spec fn snapshot_folded(poll: Poll, height: u64, snapshot_period: u64, total: u128) -> Poll {
    if poll.end_height - height < snapshot_period && poll.staked_amount is None {
        Poll { staked_amount: Some(total), ..poll }
    } else {
        poll
    }
}

/// Why a vote is refused, if it is: the poll does not exist, is over or
/// past its end height, the sender has voted, the governance's books do not
/// balance, the sender's share is worth less than `amount`, or the tally
/// would leave 128 bits.
pub open spec fn cast_vote_error(
    pre: Store,
    balance: u128,
    height: u64,
    sender: Seq<char>,
    poll_id: u64,
    vote: VoteOption,
    amount: u128,
) -> Option<ContractError> {
    if poll_id == 0 || poll_id > pre.state.poll_count {
        Some(ContractError::PollNotFound)
    } else if pre.poll(poll_id).status != PollStatus::InProgress || height > pre.poll(
        poll_id,
    ).end_height {
        Some(ContractError::PollNotInProgress)
    } else if pre.voter(poll_id, sender) is Some {
        Some(ContractError::AlreadyVoted)
    } else if staked_balance(pre, balance) is None {
        Some(ContractError::Std(StdError::Overflow))
    } else {
        match ratio_spec(
            pre.staker(sender).share,
            staked_balance(pre, balance)->0,
            pre.state.total_share,
        ) {
            Err(e) => Some(e),
            Ok(worth) => if worth < amount {
                Some(ContractError::InsufficientFunds)
            } else if tally_of(pre.poll(poll_id), vote) + amount > u128::MAX {
                Some(ContractError::Std(StdError::Overflow))
            } else {
                None
            },
        }
    }
}

/// What a vote does: the tally on the side of `vote` grows by `amount`, the
/// sender holds one more lock, the vote stands on record, and the poll's
/// snapshot is taken if it is due.
pub open spec fn vote_cast(
    pre: Store,
    post: Store,
    balance: u128,
    height: u64,
    sender: Seq<char>,
    poll_id: u64,
    vote: VoteOption,
    amount: u128,
) -> bool {
    let info = VoteInfo { vote, balance: amount };
    &&& post.config == pre.config
    &&& post.state == pre.state
    &&& post.tmp_poll_id == pre.tmp_poll_id
    &&& post.polls@ == pre.polls@.update(
        poll_id - 1,
        snapshot_folded(
            tally_added(pre.poll(poll_id), vote, amount),
            height,
            pre.config.snapshot_period,
            staked_balance(pre, balance)->0,
        ),
    )
    &&& post.bank.has(sender)
    &&& only_staker_changed(pre, post, sender)
    &&& post.staker(sender) == Staker {
        locked_balance: pre.staker(sender).locked_balance.push((poll_id, info)),
        ..pre.staker(sender)
    }
    &&& post.poll_voters@.len() == pre.poll_voters@.len()
    &&& forall|q: u64, k: Seq<char>| #[trigger]
        post.voter(q, k) == if q == poll_id && k == sender {
            Some(info)
        } else {
            pre.voter(q, k)
        }
}

/// Casts `amount` of the sender's staked tokens on poll `poll_id` at block
/// `height`. `balance` is the governance's token balance.
pub fn cast_vote(
    store: &mut Store,
    balance: u128,
    height: u64,
    sender: String,
    poll_id: u64,
    vote: VoteOption,
    amount: u128,
) -> (r: Result<Response, ContractError>)
    requires
        old(store).inv(),
    ensures
        final(store).inv(),
        advances(*old(store), *final(store)),
        match r {
            Ok(resp) => {
                &&& cast_vote_error(*old(store), balance, height, sender@, poll_id, vote, amount) is None
                &&& vote_cast(*old(store), *final(store), balance, height, sender@, poll_id, vote, amount)
                &&& resp.event == Event::Vote { poll_id, amount, voter: sender, vote_option: vote }
                &&& resp.messages@.len() == 0
            },
            Err(e) => cast_vote_error(*old(store), balance, height, sender@, poll_id, vote, amount)
                == Some(e) && *final(store) == *old(store),
        },
{
    let ghost pre = *store;
    if poll_id == 0 || poll_id > store.state.poll_count {
        return Err(ContractError::PollNotFound);
    }
    let p = poll_index(&store.polls, poll_id);
    if store.polls[p].status != PollStatus::InProgress || height > store.polls[p].end_height {
        return Err(ContractError::PollNotInProgress);
    }
    if store.poll_voters[p].find(&sender).is_some() {
        return Err(ContractError::AlreadyVoted);
    }
    let total = match total_balance(store, balance) {
        Ok(t) => t,
        Err(e) => {
            return Err(e);
        },
    };
    let share = match store.bank.find(&sender) {
        Some(i) => store.bank.vals[i].share,
        None => 0,
    };
    let worth = match ratio(share, total, store.state.total_share) {
        Ok(w) => w,
        Err(e) => {
            return Err(e);
        },
    };
    if worth < amount {
        return Err(ContractError::InsufficientFunds);
    }
    let tally = match vote {
        VoteOption::Yes => store.polls[p].yes_votes,
        VoteOption::No => store.polls[p].no_votes,
    };
    if tally > u128::MAX - amount {
        return Err(ContractError::Std(StdError::Overflow));
    }
    let i = ensure_staker(store, &sender);
    let ghost a = *store;
    match vote {
        VoteOption::Yes => {
            store.polls[p].yes_votes = tally + amount;
        },
        VoteOption::No => {
            store.polls[p].no_votes = tally + amount;
        },
    }
    if store.polls[p].end_height - height < store.config.snapshot_period
        && store.polls[p].staked_amount.is_none() {
        store.polls[p].staked_amount = Some(total);
    }
    let info = VoteInfo { vote, balance: amount };
    store.bank.vals[i].locked_balance.push((poll_id, info));
    match store.poll_voters[p].find(&sender) {
        Some(r) => {
            store.poll_voters[p].vals[r] = info;
        },
        None => {
            store.poll_voters[p].insert(sender.clone(), info);
        },
    }
    proof {
        let f = *store;
        let new_poll = snapshot_folded(
            tally_added(pre.poll(poll_id), vote, amount),
            height,
            pre.config.snapshot_period,
            staked_balance(pre, balance)->0,
        );
        assert(f.polls@ =~= pre.polls@.update(poll_id - 1, new_poll));
        lemma_deposits_update(pre.polls@, poll_id - 1, new_poll);
        lemma_sum_same_shares(f.bank.vals@, a.bank.vals@);
        assert forall|k: Seq<char>| k != sender@ implies #[trigger] f.staker(k) == pre.staker(k) && (
        f.bank.has(k) <==> pre.bank.has(k)) by {
            assert(a.staker(k) == pre.staker(k));
        }
        assert(a.staker(sender@) == pre.staker(sender@));
        let told = a.poll_voters@[p as int];
        let tnew = f.poll_voters@[p as int];
        assert forall|k: Seq<char>| #[trigger] tnew.get(k) == if k == sender@ {
            Some(info)
        } else {
            told.get(k)
        } by {
            if !told.has(sender@) {
                lemma_key_push(told.keys@, sender);
            }
        }
    }
    Ok(Response::of(Event::Vote { poll_id, amount, voter: sender, vote_option: vote }))
}

/// Why a snapshot is refused, if it is: the poll does not exist or is over,
/// its end is further off than the snapshot period or already behind, a
/// snapshot was taken before, or the governance's books do not balance.
pub open spec fn snapshot_poll_error(pre: Store, balance: u128, height: u64, poll_id: u64) -> Option<
    ContractError,
> {
    if poll_id == 0 || poll_id > pre.state.poll_count {
        Some(ContractError::PollNotFound)
    } else if pre.poll(poll_id).status != PollStatus::InProgress {
        Some(ContractError::PollNotInProgress)
    } else if height > pre.poll(poll_id).end_height {
        Some(ContractError::Std(StdError::Overflow))
    } else if pre.poll(poll_id).end_height - height > pre.config.snapshot_period {
        Some(ContractError::SnapshotHeight)
    } else if pre.poll(poll_id).staked_amount is Some {
        Some(ContractError::SnapshotAlreadyOccurred)
    } else if staked_balance(pre, balance) is None {
        Some(ContractError::Std(StdError::Overflow))
    } else {
        None
    }
}

/// Freezes the weight that poll `poll_id` measures its turnout against at
/// the staked balance of this moment. `balance` is the governance's token
/// balance.
pub fn snapshot_poll(store: &mut Store, balance: u128, height: u64, poll_id: u64) -> (r: Result<
    Response,
    ContractError,
>)
    requires
        old(store).inv(),
    ensures
        final(store).inv(),
        advances(*old(store), *final(store)),
        match r {
            Ok(resp) => {
                &&& snapshot_poll_error(*old(store), balance, height, poll_id) is None
                &&& final(store).config == old(store).config
                &&& final(store).state == old(store).state
                &&& final(store).bank == old(store).bank
                &&& final(store).poll_voters == old(store).poll_voters
                &&& final(store).tmp_poll_id == old(store).tmp_poll_id
                &&& final(store).polls@ == old(store).polls@.update(
                    poll_id - 1,
                    Poll { staked_amount: staked_balance(*old(store), balance), ..old(store).poll(poll_id) },
                )
                &&& resp.event == Event::SnapshotPoll {
                    poll_id,
                    staked_amount: staked_balance(*old(store), balance)->0,
                }
                &&& resp.messages@.len() == 0
            },
            Err(e) => snapshot_poll_error(*old(store), balance, height, poll_id) == Some(e)
                && *final(store) == *old(store),
        },
{
    let ghost pre = *store;
    if poll_id == 0 || poll_id > store.state.poll_count {
        return Err(ContractError::PollNotFound);
    }
    let p = poll_index(&store.polls, poll_id);
    if store.polls[p].status != PollStatus::InProgress {
        return Err(ContractError::PollNotInProgress);
    }
    if height > store.polls[p].end_height {
        return Err(ContractError::Std(StdError::Overflow));
    }
    if store.polls[p].end_height - height > store.config.snapshot_period {
        return Err(ContractError::SnapshotHeight);
    }
    if store.polls[p].staked_amount.is_some() {
        return Err(ContractError::SnapshotAlreadyOccurred);
    }
    let total = match total_balance(store, balance) {
        Ok(t) => t,
        Err(e) => {
            return Err(e);
        },
    };
    store.polls[p].staked_amount = Some(total);
    proof {
        let new_poll = Poll { staked_amount: Some(total), ..pre.poll(poll_id) };
        lemma_deposits_update(pre.polls@, poll_id - 1, new_poll);
    }
    Ok(Response::of(Event::SnapshotPoll { poll_id, staked_amount: total }))
}

/// The weight a poll's turnout is measured against: nothing when no share
/// exists; else the poll's snapshot, or without one the staked balance of
/// this moment. An error when that balance is needed and the books do not
/// balance.
pub open spec fn staked_weight(pre: Store, balance: u128, poll_id: u64) -> Result<
    Option<u128>,
    ContractError,
> {
    if pre.state.total_share == 0 {
        Ok(None)
    } else if pre.poll(poll_id).staked_amount is Some {
        Ok(pre.poll(poll_id).staked_amount)
    } else if staked_balance(pre, balance) is None {
        Err(ContractError::Std(StdError::Overflow))
    } else {
        Ok(staked_balance(pre, balance))
    }
}

/// How poll `poll_id` would be settled now.
pub open spec fn end_poll_verdict(pre: Store, balance: u128, poll_id: u64) -> Result<
    Verdict,
    ContractError,
> {
    match staked_weight(pre, balance, poll_id) {
        Err(e) => Err(e),
        Ok(w) => match verdict_spec(
            pre.poll(poll_id).yes_votes,
            pre.poll(poll_id).no_votes,
            w,
            pre.config.quorum,
            pre.config.threshold,
        ) {
            Err(e) => Err(ContractError::Std(e)),
            Ok(v) => Ok(v),
        },
    }
}

/// Why a poll cannot be ended, if it cannot: it does not exist, is no longer
/// in progress, has not reached its end height, or cannot be settled.
pub open spec fn end_poll_error(pre: Store, balance: u128, height: u64, poll_id: u64) -> Option<
    ContractError,
> {
    if poll_id == 0 || poll_id > pre.state.poll_count {
        Some(ContractError::PollNotFound)
    } else if pre.poll(poll_id).status != PollStatus::InProgress {
        Some(ContractError::PollNotInProgress)
    } else if pre.poll(poll_id).end_height > height {
        Some(ContractError::PollVotingPeriod)
    } else {
        match end_poll_verdict(pre, balance, poll_id) {
            Err(e) => Some(e),
            Ok(_) => None,
        }
    }
}

/// The status a verdict gives a poll.
pub open spec fn verdict_status(v: Verdict) -> PollStatus {
    if v == Verdict::Passed {
        PollStatus::Passed
    } else {
        PollStatus::Rejected
    }
}

/// Whether the deposit of a poll settled by `v` goes back to its creator:
/// whenever the quorum was reached and there is a deposit.
pub open spec fn refunds(poll: Poll, v: Verdict) -> bool {
    v != Verdict::QuorumNotReached && poll.deposit_amount > 0
}

/// What ending poll `poll_id` with verdict `v` does: the poll takes the
/// status the verdict gives and records the weight its turnout was measured
/// against; its deposit leaves the total deposit. Nothing else changes.
pub open spec fn poll_ended(pre: Store, post: Store, balance: u128, poll_id: u64, v: Verdict) -> bool {
    let weight = match staked_weight(pre, balance, poll_id) {
        Ok(Some(w)) => w,
        _ => 0u128,
    };
    &&& post.config == pre.config
    &&& post.bank == pre.bank
    &&& post.poll_voters == pre.poll_voters
    &&& post.tmp_poll_id == pre.tmp_poll_id
    &&& post.state == State {
        total_deposit: (pre.state.total_deposit - pre.poll(poll_id).deposit_amount) as u128,
        ..pre.state
    }
    &&& post.polls@ == pre.polls@.update(
        poll_id - 1,
        Poll {
            status: verdict_status(v),
            total_balance_at_end_poll: Some(weight),
            ..pre.poll(poll_id)
        },
    )
}

/// Ends poll `poll_id` at block `height` and settles it. `balance` is the
/// governance's token balance. Where the deposit goes back, the host is
/// told to pay it to the poll's creator.
pub fn end_poll(store: &mut Store, balance: u128, height: u64, poll_id: u64) -> (r: Result<
    Response,
    ContractError,
>)
    requires
        old(store).inv(),
    ensures
        final(store).inv(),
        advances(*old(store), *final(store)),
        match r {
            Ok(resp) => {
                &&& end_poll_error(*old(store), balance, height, poll_id) is None
                &&& end_poll_verdict(*old(store), balance, poll_id) matches Ok(v)
                &&& poll_ended(*old(store), *final(store), balance, poll_id, v)
                &&& old(store).poll(poll_id).end_height <= height
                &&& resp.event == Event::EndPoll { poll_id, verdict: v }
                &&& if refunds(old(store).poll(poll_id), v) {
                    resp.messages@.len() == 1 && resp.messages@[0] == Message::Transfer {
                        token: old(store).config.cw20_token,
                        recipient: old(store).poll(poll_id).creator,
                        amount: old(store).poll(poll_id).deposit_amount,
                    }
                } else {
                    resp.messages@.len() == 0
                }
            },
            Err(e) => end_poll_error(*old(store), balance, height, poll_id) == Some(e)
                && *final(store) == *old(store),
        },
{
    let ghost pre = *store;
    if poll_id == 0 || poll_id > store.state.poll_count {
        return Err(ContractError::PollNotFound);
    }
    let p = poll_index(&store.polls, poll_id);
    if store.polls[p].status != PollStatus::InProgress {
        return Err(ContractError::PollNotInProgress);
    }
    if store.polls[p].end_height > height {
        return Err(ContractError::PollVotingPeriod);
    }
    let staked: Option<u128> = if store.state.total_share == 0 {
        None
    } else {
        match store.polls[p].staked_amount {
            Some(s) => Some(s),
            None => match total_balance(store, balance) {
                Ok(t) => Some(t),
                Err(e) => {
                    return Err(e);
                },
            },
        }
    };
    let v = match verdict(
        store.polls[p].yes_votes,
        store.polls[p].no_votes,
        staked,
        store.config.quorum,
        store.config.threshold,
    ) {
        Ok(v) => v,
        Err(e) => {
            return Err(ContractError::Std(e));
        },
    };
    let weight = match staked {
        Some(w) => w,
        None => 0,
    };
    let deposit = store.polls[p].deposit_amount;
    let mut messages: Vec<Message> = Vec::new();
    let quorum_missed = match v {
        Verdict::QuorumNotReached => true,
        _ => false,
    };
    if !quorum_missed && deposit > 0 {
        let token = store.config.cw20_token.clone();
        let recipient = store.polls[p].creator.clone();
        messages.push(Message::Transfer { token, recipient, amount: deposit });
    }
    proof {
        lemma_deposits_update(pre.polls@, poll_id - 1, pre.polls@[poll_id - 1]);
    }
    store.polls[p].status = if v.passed() {
        PollStatus::Passed
    } else {
        PollStatus::Rejected
    };
    store.polls[p].total_balance_at_end_poll = Some(weight);
    store.state.total_deposit = store.state.total_deposit - deposit;
    proof {
        let new_poll = Poll {
            status: verdict_status(v),
            total_balance_at_end_poll: Some(weight),
            ..pre.poll(poll_id)
        };
        assert(store.polls@ =~= pre.polls@.update(poll_id - 1, new_poll));
        lemma_deposits_update(pre.polls@, poll_id - 1, new_poll);
    }
    Ok(Response { event: Event::EndPoll { poll_id, verdict: v }, messages })
}

} // verus!
