use vstd::prelude::*;
use crate::contract::{fractions_error, validate_quorum, validate_threshold};
use crate::decimal::Decimal;
use crate::error::ContractError;
use crate::fungible::execute::{
    execute_poll, execute_poll_error, execute_poll_messages, execute_poll_messages_error,
    poll_messages,
};
use crate::fungible::msg::{Cw20ReceiveMsg, ExecuteMsg, InstantiateMsg};
use crate::fungible::polls::{
    cast_vote, cast_vote_error, create_poll, create_poll_error, end_poll, end_poll_error,
    end_poll_verdict, poll_created, poll_ended, POLL_EXECUTE_REPLY_ID, refunds, snapshot_poll,
    snapshot_poll_error, vote_cast,
};
use crate::fungible::staking::{
    stake_share, stake_voting_tokens, staked, staked_balance, withdraw_voting_tokens, withdrawal,
    withdrawn,
};
use crate::fungible::state::{advances, Config, Poll, State, Store};
use crate::msg::Cw20HookMsg;
use crate::response::{Event, Message, Response};
use crate::table::Table;
use crate::utils::{opt_view, PollStatus};

verus! {

/// Sets the token governance up: `sender` becomes the owner, nothing is
/// staked or deposited and no poll exists.
pub fn instantiate(sender: String, contract_addr: String, msg: InstantiateMsg) -> (r: Result<
    Store,
    ContractError,
>)
    ensures
        match r {
            Ok(store) => {
                &&& fractions_error(Some(msg.quorum), Some(msg.threshold)) is None
                &&& store.inv()
                &&& store.config == Config {
                    owner: sender,
                    cw20_token: msg.cw20_token,
                    quorum: msg.quorum,
                    threshold: msg.threshold,
                    voting_period: msg.voting_period,
                    timelock_period: msg.timelock_period,
                    proposal_deposit: msg.proposal_deposit,
                    snapshot_period: msg.snapshot_period,
                }
                &&& store.state == State {
                    contract_addr,
                    poll_count: 0,
                    total_share: 0,
                    total_deposit: 0,
                }
                &&& store.polls@.len() == 0
                &&& store.poll_voters@.len() == 0
                &&& store.bank.keys@.len() == 0
                &&& store.tmp_poll_id == 0
            },
            Err(e) => fractions_error(Some(msg.quorum), Some(msg.threshold)) == Some(e),
        },
{
    match validate_quorum(msg.quorum) {
        Err(e) => {
            return Err(e);
        },
        Ok(_) => {},
    }
    match validate_threshold(msg.threshold) {
        Err(e) => {
            return Err(e);
        },
        Ok(_) => {},
    }
    Ok(
        Store {
            config: Config {
                owner: sender,
                cw20_token: msg.cw20_token,
                quorum: msg.quorum,
                threshold: msg.threshold,
                voting_period: msg.voting_period,
                timelock_period: msg.timelock_period,
                proposal_deposit: msg.proposal_deposit,
                snapshot_period: msg.snapshot_period,
            },
            state: State { contract_addr, poll_count: 0, total_share: 0, total_deposit: 0 },
            polls: Vec::new(),
            poll_voters: Vec::new(),
            bank: Table::new(),
            tmp_poll_id: 0,
        },
    )
}

/// New values for the settings of the token governance; an absent value
/// leaves the setting as it is.
#[derive(Clone, Debug, PartialEq, Eq)]
pub struct ConfigUpdate {
    pub owner: Option<String>,
    pub cw20_token: Option<String>,
    pub quorum: Option<Decimal>,
    pub threshold: Option<Decimal>,
    pub voting_period: Option<u64>,
    pub timelock_period: Option<u64>,
    pub proposal_deposit: Option<u128>,
    pub snapshot_period: Option<u64>,
}

/// Why new settings are refused, if they are: the sender is not the owner,
/// or a fraction lies outside `[0, 1]`.
pub open spec fn update_config_error(pre: Store, sender: Seq<char>, update: ConfigUpdate) -> Option<
    ContractError,
> {
    if pre.config.owner@ != sender {
        Some(ContractError::Unauthorized)
    } else {
        fractions_error(update.quorum, update.threshold)
    }
}

/// The settings after an update: each given value in place of the old one.
pub open spec fn updated_config(old_config: Config, update: ConfigUpdate) -> Config {
    Config {
        owner: match update.owner {
            Some(o) => o,
            None => old_config.owner,
        },
        cw20_token: match update.cw20_token {
            Some(t) => t,
            None => old_config.cw20_token,
        },
        quorum: match update.quorum {
            Some(q) => q,
            None => old_config.quorum,
        },
        threshold: match update.threshold {
            Some(t) => t,
            None => old_config.threshold,
        },
        voting_period: match update.voting_period {
            Some(v) => v,
            None => old_config.voting_period,
        },
        timelock_period: match update.timelock_period {
            Some(v) => v,
            None => old_config.timelock_period,
        },
        proposal_deposit: match update.proposal_deposit {
            Some(v) => v,
            None => old_config.proposal_deposit,
        },
        snapshot_period: match update.snapshot_period {
            Some(v) => v,
            None => old_config.snapshot_period,
        },
    }
}

/// Replaces the settings that are given; the others stay. Only the owner
/// may.
pub fn update_config(store: &mut Store, sender: &String, update: ConfigUpdate) -> (r: Result<
    Response,
    ContractError,
>)
    requires
        old(store).inv(),
    ensures
        final(store).inv(),
        advances(*old(store), *final(store)),
        match r {
            Ok(resp) => {
                &&& update_config_error(*old(store), sender@, update) is None
                &&& *final(store) == Store {
                    config: updated_config(old(store).config, update),
                    ..*old(store)
                }
                &&& resp.event == Event::UpdateConfig
                &&& resp.messages@.len() == 0
            },
            Err(e) => update_config_error(*old(store), sender@, update) == Some(e) && *final(store)
                == *old(store),
        },
{
    if store.config.owner != *sender {
        return Err(ContractError::Unauthorized);
    }
    match update.quorum {
        Some(q) => {
            match validate_quorum(q) {
                Err(e) => {
                    return Err(e);
                },
                Ok(_) => {},
            }
        },
        None => {},
    }
    match update.threshold {
        Some(t) => {
            match validate_threshold(t) {
                Err(e) => {
                    return Err(e);
                },
                Ok(_) => {},
            }
        },
        None => {},
    }
    match update.owner {
        Some(o) => {
            store.config.owner = o;
        },
        None => {},
    }
    match update.cw20_token {
        Some(t) => {
            store.config.cw20_token = t;
        },
        None => {},
    }
    match update.quorum {
        Some(q) => {
            store.config.quorum = q;
        },
        None => {},
    }
    match update.threshold {
        Some(t) => {
            store.config.threshold = t;
        },
        None => {},
    }
    match update.voting_period {
        Some(v) => {
            store.config.voting_period = v;
        },
        None => {},
    }
    match update.timelock_period {
        Some(v) => {
            store.config.timelock_period = v;
        },
        None => {},
    }
    match update.proposal_deposit {
        Some(v) => {
            store.config.proposal_deposit = v;
        },
        None => {},
    }
    match update.snapshot_period {
        Some(v) => {
            store.config.snapshot_period = v;
        },
        None => {},
    }
    Ok(Response::of(Event::UpdateConfig))
}

/// Why tokens sent in are refused, if they are: they do not come through
/// the voting token, their payload could not be read, or the call it asks
/// for is refused.
pub open spec fn receive_error(
    pre: Store,
    balance: u128,
    height: u64,
    sender: Seq<char>,
    msg: Cw20ReceiveMsg,
) -> Option<ContractError> {
    if pre.config.cw20_token@ != sender {
        Some(ContractError::Unauthorized)
    } else {
        match msg.msg {
            None => Some(ContractError::DataShouldBeGiven),
            Some(Cw20HookMsg::StakeVotingTokens {  }) => match stake_share(pre, balance, msg.amount) {
                Err(e) => Some(e),
                Ok(_) => None,
            },
            Some(Cw20HookMsg::CreatePoll { title, description, link, execute_msgs }) => create_poll_error(
                pre,
                height,
                msg.amount,
                title@,
                description@,
                opt_view(link),
            ),
        }
    }
}

/// Takes tokens sent in through the voting token at block `height`, and
/// stakes them or opens a poll with them as its deposit, as their payload
/// asks. `balance` is the governance's token balance, those tokens
/// included.
pub fn receive_cw20(
    store: &mut Store,
    balance: u128,
    height: u64,
    sender: &String,
    cw20_msg: Cw20ReceiveMsg,
) -> (r: Result<Response, ContractError>)
    requires
        old(store).inv(),
    ensures
        final(store).inv(),
        advances(*old(store), *final(store)),
        match r {
            Ok(resp) => {
                &&& receive_error(*old(store), balance, height, sender@, cw20_msg) is None
                &&& received(*old(store), *final(store), balance, height, cw20_msg, resp)
                &&& resp.messages@.len() == 0
            },
            Err(e) => receive_error(*old(store), balance, height, sender@, cw20_msg) == Some(e)
                && *final(store) == *old(store),
        },
{
    if store.config.cw20_token != *sender {
        return Err(ContractError::Unauthorized);
    }
    let from = cw20_msg.sender;
    let amount = cw20_msg.amount;
    match cw20_msg.msg {
        None => Err(ContractError::DataShouldBeGiven),
        Some(Cw20HookMsg::StakeVotingTokens {  }) => stake_voting_tokens(store, balance, from, amount),
        Some(Cw20HookMsg::CreatePoll { title, description, link, execute_msgs }) => create_poll(
            store,
            height,
            from,
            amount,
            title,
            description,
            link,
            execute_msgs,
        ),
    }
}

/// Why a call is refused, if it is.
pub open spec fn execute_error(
    pre: Store,
    balance: u128,
    height: u64,
    sender: Seq<char>,
    msg: ExecuteMsg,
) -> Option<ContractError> {
    match msg {
        ExecuteMsg::Receive(m) => receive_error(pre, balance, height, sender, m),
        ExecuteMsg::ExecutePollMsgs { poll_id } => execute_poll_messages_error(pre, sender, poll_id),
        ExecuteMsg::UpdateConfig {
            owner,
            cw20_token,
            quorum,
            threshold,
            voting_period,
            timelock_period,
            proposal_deposit,
            snapshot_period,
        } => if pre.config.owner@ != sender {
            Some(ContractError::Unauthorized)
        } else {
            fractions_error(quorum, threshold)
        },
        ExecuteMsg::CastVote { poll_id, vote, amount } => cast_vote_error(
            pre,
            balance,
            height,
            sender,
            poll_id,
            vote,
            amount,
        ),
        ExecuteMsg::WithdrawVotingTokens { amount } => match withdrawal(pre, balance, sender, amount) {
            Err(e) => Some(e),
            Ok(_) => None,
        },
        ExecuteMsg::EndPoll { poll_id } => end_poll_error(pre, balance, height, poll_id),
        ExecuteMsg::ExecutePoll { poll_id } => execute_poll_error(pre, height, poll_id),
        ExecuteMsg::SnapshotPoll { poll_id } => snapshot_poll_error(pre, balance, height, poll_id),
    }
}

/// What tokens sent in do: what the call their payload asks for does, on
/// behalf of the one who sent them.
pub open spec fn received(
    pre: Store,
    post: Store,
    balance: u128,
    height: u64,
    msg: Cw20ReceiveMsg,
    resp: Response,
) -> bool {
    &&& resp.messages@.len() == 0
    &&& match msg.msg {
        None => false,
        Some(Cw20HookMsg::StakeVotingTokens {  }) => staked(
            pre,
            post,
            msg.sender@,
            stake_share(pre, balance, msg.amount)->Ok_0,
        ) && resp.event == Event::Staking {
            sender: msg.sender,
            share: stake_share(pre, balance, msg.amount)->Ok_0,
            amount: msg.amount,
        },
        Some(Cw20HookMsg::CreatePoll { title, description, link, execute_msgs }) => poll_created(
            pre,
            post,
            height,
            msg.sender,
            msg.amount,
            title,
            description,
            link,
            execute_msgs,
        ) && resp.event == Event::CreatePoll {
            creator: msg.sender,
            poll_id: (pre.state.poll_count + 1) as u64,
            end_height: (height + pre.config.voting_period) as u64,
        },
    }
}

/// What a call does.
pub open spec fn executed(
    pre: Store,
    post: Store,
    balance: u128,
    height: u64,
    sender: String,
    msg: ExecuteMsg,
    resp: Response,
) -> bool {
    match msg {
        ExecuteMsg::Receive(m) => received(pre, post, balance, height, m, resp),
        ExecuteMsg::ExecutePollMsgs { poll_id } => {
            &&& post == Store {
                polls: post.polls,
                ..pre
            }
            &&& post.polls@ == pre.polls@.update(
                poll_id - 1,
                Poll { status: PollStatus::Executed, ..pre.poll(poll_id) },
            )
            &&& resp.event == Event::ExecutePollMsgs { poll_id }
            &&& poll_messages(pre.poll(poll_id), resp.messages@)
        },
        ExecuteMsg::UpdateConfig {
            owner,
            cw20_token,
            quorum,
            threshold,
            voting_period,
            timelock_period,
            proposal_deposit,
            snapshot_period,
        } => {
            &&& post == Store {
                config: updated_config(
                    pre.config,
                    ConfigUpdate {
                        owner,
                        cw20_token,
                        quorum,
                        threshold,
                        voting_period,
                        timelock_period,
                        proposal_deposit,
                        snapshot_period,
                    },
                ),
                ..pre
            }
            &&& resp.event == Event::UpdateConfig
            &&& resp.messages@.len() == 0
        },
        ExecuteMsg::CastVote { poll_id, vote, amount } => {
            &&& vote_cast(pre, post, balance, height, sender@, poll_id, vote, amount)
            &&& resp.event == Event::Vote { poll_id, amount, voter: sender, vote_option: vote }
            &&& resp.messages@.len() == 0
        },
        ExecuteMsg::WithdrawVotingTokens { amount } => {
            &&& withdrawal(pre, balance, sender@, amount) matches Ok(w)
            &&& w.share + w.locked_share <= pre.staker(sender@).share
            &&& withdrawn(pre, post, sender@, w.share)
            &&& resp.event == Event::Withdraw { recipient: sender, amount: w.amount }
            &&& resp.messages@.len() == 1
            &&& resp.messages@[0] == Message::Transfer {
                token: pre.config.cw20_token,
                recipient: sender,
                amount: w.amount,
            }
        },
        ExecuteMsg::EndPoll { poll_id } => {
            &&& end_poll_verdict(pre, balance, poll_id) matches Ok(v)
            &&& poll_ended(pre, post, balance, poll_id, v)
            &&& pre.poll(poll_id).end_height <= height
            &&& resp.event == Event::EndPoll { poll_id, verdict: v }
            &&& if refunds(pre.poll(poll_id), v) {
                resp.messages@.len() == 1 && resp.messages@[0] == Message::Transfer {
                    token: pre.config.cw20_token,
                    recipient: pre.poll(poll_id).creator,
                    amount: pre.poll(poll_id).deposit_amount,
                }
            } else {
                resp.messages@.len() == 0
            }
        },
        ExecuteMsg::ExecutePoll { poll_id } => {
            &&& pre.poll(poll_id).end_height + pre.config.timelock_period <= height
            &&& post == Store { tmp_poll_id: poll_id, ..pre }
            &&& resp.event == Event::ExecutePoll { poll_id }
            &&& resp.messages@.len() == 1
            &&& resp.messages@[0] == Message::RunPollMessages {
                contract: pre.state.contract_addr,
                poll_id,
                reply_id: POLL_EXECUTE_REPLY_ID,
            }
        },
        ExecuteMsg::SnapshotPoll { poll_id } => {
            &&& post == Store {
                polls: post.polls,
                ..pre
            }
            &&& post.polls@ == pre.polls@.update(
                poll_id - 1,
                Poll { staked_amount: staked_balance(pre, balance), ..pre.poll(poll_id) },
            )
            &&& resp.event == Event::SnapshotPoll {
                poll_id,
                staked_amount: staked_balance(pre, balance)->0,
            }
            &&& resp.messages@.len() == 0
        },
    }
}

/// Makes the call `msg` asks for, sent by `sender` at block `height`, when
/// `balance` is the governance's token balance.
pub fn execute(store: &mut Store, balance: u128, height: u64, sender: &String, msg: ExecuteMsg) -> (r:
    Result<Response, ContractError>)
    requires
        old(store).inv(),
    ensures
        final(store).inv(),
        advances(*old(store), *final(store)),
        match r {
            Ok(resp) => execute_error(*old(store), balance, height, sender@, msg) is None
                && executed(*old(store), *final(store), balance, height, *sender, msg, resp),
            Err(e) => execute_error(*old(store), balance, height, sender@, msg) == Some(e)
                && *final(store) == *old(store),
        },
{
    match msg {
        ExecuteMsg::Receive(m) => receive_cw20(store, balance, height, sender, m),
        ExecuteMsg::ExecutePollMsgs { poll_id } => execute_poll_messages(store, sender, poll_id),
        ExecuteMsg::UpdateConfig {
            owner,
            cw20_token,
            quorum,
            threshold,
            voting_period,
            timelock_period,
            proposal_deposit,
            snapshot_period,
        } => update_config(
            store,
            sender,
            ConfigUpdate {
                owner,
                cw20_token,
                quorum,
                threshold,
                voting_period,
                timelock_period,
                proposal_deposit,
                snapshot_period,
            },
        ),
        ExecuteMsg::CastVote { poll_id, vote, amount } => cast_vote(
            store,
            balance,
            height,
            sender.clone(),
            poll_id,
            vote,
            amount,
        ),
        ExecuteMsg::WithdrawVotingTokens { amount } => withdraw_voting_tokens(
            store,
            balance,
            sender.clone(),
            amount,
        ),
        ExecuteMsg::EndPoll { poll_id } => end_poll(store, balance, height, poll_id),
        ExecuteMsg::ExecutePoll { poll_id } => execute_poll(store, height, poll_id),
        ExecuteMsg::SnapshotPoll { poll_id } => snapshot_poll(store, balance, height, poll_id),
    }
}

} // verus!
