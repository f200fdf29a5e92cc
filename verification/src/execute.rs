use vstd::prelude::*;
use crate::accounting::poll_index;
use crate::bank::{apply_burn, _burn, burn_error, burned, check_burn, _mint, minted};
use crate::error::{ContractError, StdError};
use crate::response::{Event, Response};
use crate::state::{advances, no_tally_shrunk, Poll, State, Store};
use crate::table::Table;
use crate::utils::{
    opt_view, PollStatus, text_error, validate_texts, Verdict, verdict, verdict_spec,
};

verus! {

/// Why a mint is refused, if it is: the sender is not the owner, the amount is
/// zero, or the recipient's balance would leave 128 bits.
pub open spec fn mint_error(pre: Store, sender: Seq<char>, recipient: Seq<char>, amount: u128)
    -> Option<ContractError> {
    if pre.config.owner@ != sender {
        Some(ContractError::Unauthorized)
    } else if amount == 0 {
        Some(ContractError::InsufficientFunds)
    } else if pre.member(recipient).balance + amount > u128::MAX {
        Some(ContractError::Std(StdError::Overflow))
    } else {
        None
    }
}

/// Mints `amount` to the member `recipient_id`. Only the owner may.
pub fn mint(store: &mut Store, sender: &String, recipient_id: String, amount: u128) -> (r: Result<
    Response,
    ContractError,
>)
    requires
        old(store).inv(),
    ensures
        final(store).inv(),
        advances(*old(store), *final(store)),
        no_tally_shrunk(*old(store), *final(store)),
        match r {
            Ok(resp) => {
                &&& mint_error(*old(store), sender@, recipient_id@, amount) is None
                &&& minted(*old(store), *final(store), recipient_id@, amount)
                &&& resp.event == Event::Mint { to: recipient_id, amount }
                &&& resp.messages@.len() == 0
            },
            Err(e) => mint_error(*old(store), sender@, recipient_id@, amount) == Some(e)
                && *final(store) == *old(store),
        },
{
    if store.config.owner != *sender {
        return Err(ContractError::Unauthorized);
    }
    if amount == 0 {
        return Err(ContractError::InsufficientFunds);
    }
    match _mint(store, &recipient_id, amount) {
        Ok(_) => Ok(Response::of(Event::Mint { to: recipient_id, amount })),
        Err(e) => Err(e),
    }
}

/// Why a proposal is refused, if it is: its texts are out of bounds, or the
/// poll counter or the end height would leave 64 bits.
pub open spec fn create_poll_error(
    pre: Store,
    height: u64,
    title: Seq<char>,
    description: Seq<char>,
    link: Option<Seq<char>>,
) -> Option<ContractError> {
    match text_error(title, description, link) {
        Some(e) => Some(ContractError::ValidateMsg(e)),
        None => if pre.state.poll_count + 1 > u64::MAX || height + pre.config.voting_period
            > u64::MAX {
            Some(ContractError::Std(StdError::Overflow))
        } else {
            None
        },
    }
}

/// What creating a poll does: the poll counter grows by one, and the new
/// poll, numbered by the new count, starts in progress with empty tallies,
/// no votes on record, the total share of that moment as its snapshot, and
/// its end `voting_period` blocks after `height`.
pub open spec fn poll_created(
    pre: Store,
    post: Store,
    height: u64,
    sender_id: String,
    title: String,
    description: String,
    link: Option<String>,
) -> bool {
    &&& post.config == pre.config
    &&& post.bank == pre.bank
    &&& post.state == State { poll_count: (pre.state.poll_count + 1) as u64, ..pre.state }
    &&& post.polls@ == pre.polls@.push(
        Poll {
            id: (pre.state.poll_count + 1) as u64,
            creator: sender_id,
            status: PollStatus::InProgress,
            yes_votes: 0,
            no_votes: 0,
            end_height: (height + pre.config.voting_period) as u64,
            title,
            description,
            link,
            total_share_at_start_poll: pre.state.total_share,
            total_share_at_end_poll: None,
        },
    )
    &&& post.poll_voters@.len() == pre.poll_voters@.len() + 1
    &&& post.poll_voters@.last().keys@.len() == 0
    &&& forall|i: int|
        0 <= i < pre.poll_voters@.len() ==> #[trigger] post.poll_voters@[i] == pre.poll_voters@[i]
}

/// Opens a poll on behalf of the member `sender_id` at block `height`.
pub fn create_poll(
    store: &mut Store,
    height: u64,
    sender_id: String,
    title: String,
    description: String,
    link: Option<String>,
) -> (r: Result<Response, ContractError>)
    requires
        old(store).inv(),
    ensures
        final(store).inv(),
        advances(*old(store), *final(store)),
        no_tally_shrunk(*old(store), *final(store)),
        match r {
            Ok(resp) => {
                &&& create_poll_error(*old(store), height, title@, description@, opt_view(link)) is None
                &&& poll_created(*old(store), *final(store), height, sender_id, title, description, link)
                &&& resp.event == Event::CreatePoll {
                    creator: sender_id,
                    poll_id: (old(store).state.poll_count + 1) as u64,
                    end_height: (height + old(store).config.voting_period) as u64,
                }
                &&& resp.messages@.len() == 0
            },
            Err(e) => create_poll_error(*old(store), height, title@, description@, opt_view(link))
                == Some(e) && *final(store) == *old(store),
        },
{
    match validate_texts(title.as_str(), description.as_str(), &link) {
        Err(e) => {
            return Err(e);
        },
        Ok(_) => {},
    }
    let poll_id = match store.state.poll_count.checked_add(1) {
        Some(n) => n,
        None => {
            return Err(ContractError::Std(StdError::Overflow));
        },
    };
    let end_height = match height.checked_add(store.config.voting_period) {
        Some(h) => h,
        None => {
            return Err(ContractError::Std(StdError::Overflow));
        },
    };
    let creator = sender_id.clone();
    let new_poll = Poll {
        id: poll_id,
        creator: sender_id,
        status: PollStatus::InProgress,
        yes_votes: 0,
        no_votes: 0,
        end_height,
        title,
        description,
        link,
        total_share_at_start_poll: store.state.total_share,
        total_share_at_end_poll: None,
    };
    store.state.poll_count = poll_id;
    store.polls.push(new_poll);
    store.poll_voters.push(Table::new());
    Ok(Response::of(Event::CreatePoll { creator, poll_id, end_height }))
}

/// The weight a poll's turnout is measured against: nothing when no share
/// exists, else the larger of the total share at the poll's start and now.
pub open spec fn staked_weight(pre: Store, poll_id: u64) -> Option<u128> {
    if pre.state.total_share == 0 {
        None
    } else if pre.poll(poll_id).total_share_at_start_poll >= pre.state.total_share {
        Some(pre.poll(poll_id).total_share_at_start_poll)
    } else {
        Some(pre.state.total_share)
    }
}

/// How poll `poll_id` would be settled now.
pub open spec fn end_poll_verdict(pre: Store, poll_id: u64) -> Result<Verdict, StdError> {
    verdict_spec(
        pre.poll(poll_id).yes_votes,
        pre.poll(poll_id).no_votes,
        staked_weight(pre, poll_id),
        pre.config.quorum,
        pre.config.threshold,
    )
}

/// Why a poll cannot be ended, if it cannot: it does not exist, is no longer
/// in progress, has not reached its end height, or its count is out of range.
pub open spec fn end_poll_error(pre: Store, height: u64, poll_id: u64) -> Option<ContractError> {
    if poll_id == 0 || poll_id > pre.state.poll_count {
        Some(ContractError::PollNotFound)
    } else if pre.poll(poll_id).status != PollStatus::InProgress {
        Some(ContractError::PollNotInProgress)
    } else if pre.poll(poll_id).end_height > height {
        Some(ContractError::PollVotingPeriod)
    } else {
        match end_poll_verdict(pre, poll_id) {
            Err(e) => Some(ContractError::Std(e)),
            Ok(_) => None,
        }
    }
}

/// The status a verdict gives a poll.
pub open spec fn verdict_status(v: Verdict) -> PollStatus {
    if v == Verdict::Passed {
        PollStatus::Passed
    } else {
        PollStatus::Rejected
    }
}

/// What ending poll `poll_id` with verdict `v` does: the poll takes the
/// status the verdict gives and records the total share of that moment.
/// Nothing else changes.
pub open spec fn poll_ended(pre: Store, post: Store, poll_id: u64, v: Verdict) -> bool {
    &&& post.config == pre.config
    &&& post.state == pre.state
    &&& post.bank == pre.bank
    &&& post.poll_voters == pre.poll_voters
    &&& post.polls@ == pre.polls@.update(
        poll_id - 1,
        Poll {
            status: verdict_status(v),
            total_share_at_end_poll: Some(pre.state.total_share),
            ..pre.poll(poll_id)
        },
    )
}

/// Ends poll `poll_id` at block `height` and settles it.
pub fn end_poll(store: &mut Store, height: u64, poll_id: u64) -> (r: Result<Response, ContractError>)
    requires
        old(store).inv(),
    ensures
        final(store).inv(),
        advances(*old(store), *final(store)),
        no_tally_shrunk(*old(store), *final(store)),
        match r {
            Ok(resp) => {
                &&& end_poll_error(*old(store), height, poll_id) is None
                &&& end_poll_verdict(*old(store), poll_id) is Ok
                &&& poll_ended(
                    *old(store),
                    *final(store),
                    poll_id,
                    end_poll_verdict(*old(store), poll_id)->Ok_0,
                )
                &&& old(store).poll(poll_id).end_height <= height
                &&& resp.event == Event::EndPoll {
                    poll_id,
                    verdict: end_poll_verdict(*old(store), poll_id)->Ok_0,
                }
                &&& resp.messages@.len() == 0
            },
            Err(e) => end_poll_error(*old(store), height, poll_id) == Some(e) && *final(store)
                == *old(store),
        },
{
    let ghost pre = *store;
    if poll_id == 0 || poll_id > store.state.poll_count {
        return Err(ContractError::PollNotFound);
    }
    let p = poll_index(&store.polls, poll_id);
    if store.polls[p].status != PollStatus::InProgress {
        return Err(ContractError::PollNotInProgress);
    }
    if store.polls[p].end_height > height {
        return Err(ContractError::PollVotingPeriod);
    }
    let total_share = store.state.total_share;
    let staked = if total_share == 0 {
        None
    } else if store.polls[p].total_share_at_start_poll >= total_share {
        Some(store.polls[p].total_share_at_start_poll)
    } else {
        Some(total_share)
    };
    let v = match verdict(
        store.polls[p].yes_votes,
        store.polls[p].no_votes,
        staked,
        store.config.quorum,
        store.config.threshold,
    ) {
        Ok(v) => v,
        Err(e) => {
            return Err(ContractError::Std(e));
        },
    };
    store.polls[p].status = if v.passed() {
        PollStatus::Passed
    } else {
        PollStatus::Rejected
    };
    store.polls[p].total_share_at_end_poll = Some(total_share);
    proof {
        assert(store.polls@ =~= pre.polls@.update(
            poll_id - 1,
            Poll {
                status: verdict_status(v),
                total_share_at_end_poll: Some(pre.state.total_share),
                ..pre.poll(poll_id)
            },
        ));
    }
    Ok(Response::of(Event::EndPoll { poll_id, verdict: v }))
}

/// Why an exit is refused, if it is: as a burn of the whole balance.
pub open spec fn exit_error(pre: Store, key: Seq<char>) -> Option<ContractError> {
    burn_error(pre, key, pre.member(key).balance)
}

/// Burns the whole balance of the member `sender_id`.
pub fn exit(store: &mut Store, sender_id: String) -> (r: Result<Response, ContractError>)
    requires
        old(store).inv(),
    ensures
        final(store).inv(),
        advances(*old(store), *final(store)),
        no_tally_shrunk(*old(store), *final(store)),
        match r {
            Ok(resp) => {
                &&& exit_error(*old(store), sender_id@) is None
                &&& burned(
                    *old(store),
                    *final(store),
                    sender_id@,
                    old(store).member(sender_id@).balance,
                )
                &&& resp.event == Event::Exit {
                    from: sender_id,
                    amount: old(store).member(sender_id@).balance,
                }
                &&& resp.messages@.len() == 0
            },
            Err(e) => exit_error(*old(store), sender_id@) == Some(e) && *final(store) == *old(
                store,
            ),
        },
{
    let amount = match store.bank.find(&sender_id) {
        Some(i) => store.bank.vals[i].balance,
        None => 0,
    };
    match _burn(store, &sender_id, amount) {
        Ok(_) => Ok(Response::of(Event::Exit { from: sender_id, amount })),
        Err(e) => Err(e),
    }
}

/// Why a transfer is refused, if it is: the sender is not the owner, the
/// amount is zero, the burn is refused, or the recipient's balance would
/// leave 128 bits.
pub open spec fn transfer_from_error(
    pre: Store,
    sender: Seq<char>,
    owner_id: Seq<char>,
    recipient_id: Seq<char>,
    amount: u128,
) -> Option<ContractError> {
    if pre.config.owner@ != sender {
        Some(ContractError::Unauthorized)
    } else if amount == 0 {
        Some(ContractError::InsufficientFunds)
    } else if burn_error(pre, owner_id, amount) is Some {
        burn_error(pre, owner_id, amount)
    } else if recipient_id != owner_id && pre.member(recipient_id).balance + amount > u128::MAX {
        Some(ContractError::Std(StdError::Overflow))
    } else {
        None
    }
}

/// Moves `amount` from the member `owner_id` to the member `recipient_id`:
/// a burn from the one, then a mint to the other. Only the owner of the
/// governance may.
pub fn transfer_from(
    store: &mut Store,
    sender: &String,
    owner_id: String,
    recipient_id: String,
    amount: u128,
) -> (r: Result<Response, ContractError>)
    requires
        old(store).inv(),
    ensures
        final(store).inv(),
        advances(*old(store), *final(store)),
        no_tally_shrunk(*old(store), *final(store)),
        match r {
            Ok(resp) => {
                &&& transfer_from_error(*old(store), sender@, owner_id@, recipient_id@, amount) is None
                &&& exists|mid: Store|
                    mid.inv() && burned(*old(store), mid, owner_id@, amount) && #[trigger] minted(
                        mid,
                        *final(store),
                        recipient_id@,
                        amount,
                    )
                &&& resp.event == Event::TransferFrom {
                    from: owner_id,
                    to: recipient_id,
                    by: *sender,
                    amount,
                }
                &&& resp.messages@.len() == 0
            },
            Err(e) => transfer_from_error(*old(store), sender@, owner_id@, recipient_id@, amount)
                == Some(e) && *final(store) == *old(store),
        },
{
    if store.config.owner != *sender {
        return Err(ContractError::Unauthorized);
    }
    if amount == 0 {
        return Err(ContractError::InsufficientFunds);
    }
    let i = match check_burn(store, &owner_id, amount) {
        Ok(i) => i,
        Err(e) => {
            return Err(e);
        },
    };
    if recipient_id != owner_id {
        match store.bank.find(&recipient_id) {
            Some(j) => {
                if store.bank.vals[j].balance > u128::MAX - amount {
                    return Err(ContractError::Std(StdError::Overflow));
                }
            },
            None => {},
        }
    }
    apply_burn(store, i, amount);
    match _mint(store, &recipient_id, amount) {
        Ok(_) => {},
        Err(_) => {},
    }
    let by = sender.clone();
    Ok(Response::of(Event::TransferFrom { from: owner_id, to: recipient_id, by, amount }))
}

} // verus!
