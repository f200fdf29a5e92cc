use vstd::prelude::*;
use crate::accounting::poll_index;
use crate::error::{ContractError, StdError};
use crate::fungible::polls::POLL_EXECUTE_REPLY_ID;
use crate::fungible::state::{advances, lemma_deposits_update, Poll, Store};
use crate::msg::PollExecuteMsg;
use crate::response::{Event, Message, Response};
use crate::utils::PollStatus;

verus! {

/// Why a poll cannot be executed, if it cannot: it does not exist, has not
/// passed, or its timelock has not run out.
pub open spec fn execute_poll_error(pre: Store, height: u64, poll_id: u64) -> Option<ContractError> {
    if poll_id == 0 || poll_id > pre.state.poll_count {
        Some(ContractError::PollNotFound)
    } else if pre.poll(poll_id).status != PollStatus::Passed {
        Some(ContractError::PollNotPassed)
    } else if pre.poll(poll_id).end_height + pre.config.timelock_period > height {
        Some(ContractError::TimelockNotExpired)
    } else {
        None
    }
}

/// Sends the messages of the passed poll `poll_id` off at block `height`:
/// the poll's id is noted, and the host is told to call the governance
/// itself, in a sub-call of its own, to run them.
pub fn execute_poll(store: &mut Store, height: u64, poll_id: u64) -> (r: Result<
    Response,
    ContractError,
>)
    requires
        old(store).inv(),
    ensures
        final(store).inv(),
        advances(*old(store), *final(store)),
        match r {
            Ok(resp) => {
                &&& execute_poll_error(*old(store), height, poll_id) is None
                &&& old(store).poll(poll_id).end_height + old(store).config.timelock_period <= height
                &&& *final(store) == Store { tmp_poll_id: poll_id, ..*old(store) }
                &&& resp.event == Event::ExecutePoll { poll_id }
                &&& resp.messages@.len() == 1
                &&& resp.messages@[0] == Message::RunPollMessages {
                    contract: old(store).state.contract_addr,
                    poll_id,
                    reply_id: POLL_EXECUTE_REPLY_ID,
                }
            },
            Err(e) => execute_poll_error(*old(store), height, poll_id) == Some(e) && *final(store)
                == *old(store),
        },
{
    if poll_id == 0 || poll_id > store.state.poll_count {
        return Err(ContractError::PollNotFound);
    }
    let p = poll_index(&store.polls, poll_id);
    if store.polls[p].status != PollStatus::Passed {
        return Err(ContractError::PollNotPassed);
    }
    let end = store.polls[p].end_height;
    let timelock = store.config.timelock_period;
    if end > height || timelock > height - end {
        return Err(ContractError::TimelockNotExpired);
    }
    store.tmp_poll_id = poll_id;
    let contract = store.state.contract_addr.clone();
    let mut messages: Vec<Message> = Vec::new();
    messages.push(Message::RunPollMessages { contract, poll_id, reply_id: POLL_EXECUTE_REPLY_ID });
    Ok(Response { event: Event::ExecutePoll { poll_id }, messages })
}

/// Whether message `a` of `data` runs before message `b`: the one with the
/// smaller `order`, and of two with the same `order` the one that was given
/// first.
pub open spec fn runs_before(data: Seq<PollExecuteMsg>, a: int, b: int) -> bool {
    data[a].order < data[b].order || (data[a].order == data[b].order && a < b)
}

/// Whether `idx` lists the positions of all of `data` in the order in which
/// the messages run.
pub open spec fn is_execution_order(data: Seq<PollExecuteMsg>, idx: Seq<usize>) -> bool {
    &&& idx.len() == data.len()
    &&& forall|k: int| 0 <= k < idx.len() ==> (#[trigger] idx[k]) < data.len()
    &&& forall|a: int, b: int|
        0 <= a < b < idx.len() ==> runs_before(data, #[trigger] idx[a] as int, #[trigger] idx[b] as int)
    &&& forall|i: usize| i < data.len() ==> #[trigger] idx.contains(i)
}

/// The positions of `data` in ascending `order`; messages of the same
/// `order` keep the order in which they were given.
pub fn execution_order(data: &Vec<PollExecuteMsg>) -> (idx: Vec<usize>)
    ensures
        is_execution_order(data@, idx@),
{
    let n = data.len();
    let mut idx: Vec<usize> = Vec::new();
    let mut k: usize = 0;
    while k < n
        invariant
            n == data@.len(),
            k <= n,
            idx@.len() == k,
            forall|a: int| 0 <= a < idx@.len() ==> (#[trigger] idx@[a]) < k,
            forall|a: int, b: int|
                0 <= a < b < idx@.len() ==> runs_before(
                    data@,
                    #[trigger] idx@[a] as int,
                    #[trigger] idx@[b] as int,
                ),
            forall|i: usize| i < k ==> #[trigger] idx@.contains(i),
        decreases n - k,
    {
        let order = data[k].order;
        let len = idx.len();
        let mut pos: usize = 0;
        while pos < len && data[idx[pos]].order <= order
            invariant
                n == data@.len(),
                k < n,
                len == idx@.len(),
                pos <= len,
                order == data@[k as int].order,
                forall|a: int| 0 <= a < idx@.len() ==> (#[trigger] idx@[a]) < k,
                forall|a: int| 0 <= a < pos ==> data@[(#[trigger] idx@[a]) as int].order <= order,
            decreases len - pos,
        {
            pos = pos + 1;
        }
        let ghost before = idx@;
        idx.insert(pos, k);
        proof {
            let after = idx@;
            assert forall|a: int, b: int| 0 <= a < b < after.len() implies runs_before(
                data@,
                #[trigger] after[a] as int,
                #[trigger] after[b] as int,
            ) by {}
            assert forall|i: usize| i < k + 1 implies #[trigger] after.contains(i) by {
                if i < k {
                    assert(before.contains(i));
                    let a = choose|a: int| 0 <= a < before.len() && before[a] == i;
                    if a < pos {
                        assert(after[a] == i);
                    } else {
                        assert(after[a + 1] == i);
                    }
                } else {
                    assert(after[pos as int] == i);
                }
            }
            assert forall|a: int| 0 <= a < after.len() implies (#[trigger] after[a]) < k + 1 by {}
        }
        k = k + 1;
    }
    idx
}

/// A copy of `bytes`.
pub fn clone_bytes(bytes: &Vec<u8>) -> (r: Vec<u8>)
    ensures
        r@ == bytes@,
{
    let n = bytes.len();
    let mut r: Vec<u8> = Vec::new();
    let mut i: usize = 0;
    while i < n
        invariant
            n == bytes@.len(),
            i <= n,
            r@ == bytes@.take(i as int),
        decreases n - i,
    {
        r.push(bytes[i]);
        i = i + 1;
    }
    r
}

/// Whether `out` holds the messages of `data` as calls, in the order `idx`.
pub open spec fn messages_in_order(data: Seq<PollExecuteMsg>, idx: Seq<usize>, out: Seq<Message>) -> bool {
    &&& out.len() == idx.len()
    &&& forall|k: int|
        0 <= k < out.len() ==> {
            &&& (#[trigger] out[k]) matches Message::Execute { contract, msg }
            &&& contract@ == data[idx[k] as int].contract@
            &&& msg@ == data[idx[k] as int].msg@
        }
}

/// Whether `out` holds the messages a poll sends on execution: none for a
/// poll without messages, else each message as a call, in ascending
/// `order`.
pub open spec fn poll_messages(poll: Poll, out: Seq<Message>) -> bool {
    match poll.execute_data {
        None => out.len() == 0,
        Some(data) => exists|idx: Seq<usize>|
            is_execution_order(data@, idx) && #[trigger] messages_in_order(data@, idx, out),
    }
}

/// The messages of `data` as calls, in ascending `order`.
pub fn ordered_messages(data: &Vec<PollExecuteMsg>) -> (out: Vec<Message>)
    ensures
        exists|idx: Seq<usize>|
            is_execution_order(data@, idx) && #[trigger] messages_in_order(data@, idx, out@),
{
    let idx = execution_order(data);
    let n = idx.len();
    let mut out: Vec<Message> = Vec::new();
    let mut k: usize = 0;
    while k < n
        invariant
            is_execution_order(data@, idx@),
            n == idx@.len(),
            k <= n,
            out@.len() == k,
            forall|a: int|
                0 <= a < k ==> {
                    &&& (#[trigger] out@[a]) matches Message::Execute { contract, msg }
                    &&& contract@ == data@[idx@[a] as int].contract@
                    &&& msg@ == data@[idx@[a] as int].msg@
                },
        decreases n - k,
    {
        let i = idx[k];
        let contract = data[i].contract.clone();
        let msg = clone_bytes(&data[i].msg);
        out.push(Message::Execute { contract, msg });
        k = k + 1;
    }
    proof {
        assert(messages_in_order(data@, idx@, out@));
    }
    out
}

/// Why the messages of a poll cannot be run, if they cannot: the caller is
/// not the governance itself, or the poll does not exist or has not passed.
pub open spec fn execute_poll_messages_error(pre: Store, sender: Seq<char>, poll_id: u64) -> Option<
    ContractError,
> {
    if pre.state.contract_addr@ != sender {
        Some(ContractError::Unauthorized)
    } else if poll_id == 0 || poll_id > pre.state.poll_count {
        Some(ContractError::PollNotFound)
    } else if pre.poll(poll_id).status != PollStatus::Passed {
        Some(ContractError::PollNotPassed)
    } else {
        None
    }
}

/// Runs the messages of the passed poll `poll_id`: the poll becomes
/// executed, and the host is told to send its messages in ascending
/// `order`. Only the governance itself may call this.
pub fn execute_poll_messages(store: &mut Store, sender: &String, poll_id: u64) -> (r: Result<
    Response,
    ContractError,
>)
    requires
        old(store).inv(),
    ensures
        final(store).inv(),
        advances(*old(store), *final(store)),
        match r {
            Ok(resp) => {
                &&& execute_poll_messages_error(*old(store), sender@, poll_id) is None
                &&& final(store).config == old(store).config
                &&& final(store).state == old(store).state
                &&& final(store).bank == old(store).bank
                &&& final(store).poll_voters == old(store).poll_voters
                &&& final(store).tmp_poll_id == old(store).tmp_poll_id
                &&& final(store).polls@ == old(store).polls@.update(
                    poll_id - 1,
                    Poll { status: PollStatus::Executed, ..old(store).poll(poll_id) },
                )
                &&& resp.event == Event::ExecutePollMsgs { poll_id }
                &&& poll_messages(old(store).poll(poll_id), resp.messages@)
            },
            Err(e) => execute_poll_messages_error(*old(store), sender@, poll_id) == Some(e)
                && *final(store) == *old(store),
        },
{
    let ghost pre = *store;
    if store.state.contract_addr != *sender {
        return Err(ContractError::Unauthorized);
    }
    if poll_id == 0 || poll_id > store.state.poll_count {
        return Err(ContractError::PollNotFound);
    }
    let p = poll_index(&store.polls, poll_id);
    if store.polls[p].status != PollStatus::Passed {
        return Err(ContractError::PollNotPassed);
    }
    let messages = match &store.polls[p].execute_data {
        Some(data) => ordered_messages(data),
        None => Vec::new(),
    };
    store.polls[p].status = PollStatus::Executed;
    proof {
        let new_poll = Poll { status: PollStatus::Executed, ..pre.poll(poll_id) };
        lemma_deposits_update(pre.polls@, poll_id - 1, new_poll);
    }
    Ok(Response { event: Event::ExecutePollMsgs { poll_id }, messages })
}

/// Why a reply is refused, if it is: it does not answer the sub-call that
/// runs the messages of a poll.
pub open spec fn reply_error(reply_id: u64) -> Option<ContractError> {
    if reply_id != POLL_EXECUTE_REPLY_ID {
        Some(ContractError::Std(StdError::InvalidReplyId))
    } else {
        None
    }
}

/// Takes the news that the sub-call running the messages of a poll has
/// failed. The host has undone that sub-call, so the poll noted by
/// `execute_poll` is passed as before and can be executed again; the failure
/// ends here and is reported as an event.
pub fn reply(store: &Store, reply_id: u64) -> (r: Result<Response, ContractError>)
    ensures
        match r {
            Ok(resp) => reply_error(reply_id) is None && resp.event == Event::FailedPoll {
                poll_id: store.tmp_poll_id,
            } && resp.messages@.len() == 0,
            Err(e) => reply_error(reply_id) == Some(e),
        },
{
    if reply_id != POLL_EXECUTE_REPLY_ID {
        return Err(ContractError::Std(StdError::InvalidReplyId));
    }
    Ok(Response::of(Event::FailedPoll { poll_id: store.tmp_poll_id }))
}

} // verus!
