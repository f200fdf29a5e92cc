use vstd::prelude::*;
use crate::bank::{burned, minted};
use crate::decimal::{Decimal, DECIMAL_FRACTIONAL};
use crate::delegation::{
    delegate_error, delegate_vote, delegated, undelegate_error, undelegate_vote, undelegated,
};
use crate::error::{ContractError, StdError};
use crate::execute::{
    create_poll, create_poll_error, end_poll, end_poll_error, end_poll_verdict, exit, exit_error,
    mint, mint_error, poll_created, poll_ended, transfer_from, transfer_from_error,
};
use crate::msg::{Cw721HookMsg, Cw721ReceiveMsg, ExecuteMsg, InstantiateMsg};
use crate::response::{Event, Response};
use crate::state::{advances, Config, no_tally_shrunk, State, Store};
use crate::table::Table;
use crate::utils::opt_view;
use crate::voting::{
    cancel_vote, cancel_vote_error, cascade_total, cast_vote, cast_vote_error, vote_cancelled,
    votes_cast,
};

verus! {

/// Accepts a quorum in `[0, 1]`.
pub fn validate_quorum(quorum: Decimal) -> (r: Result<(), ContractError>)
    ensures
        r is Ok <==> quorum.is_fraction(),
        r is Err ==> r == Err::<(), ContractError>(ContractError::Std(StdError::QuorumOutOfRange)),
{
    if quorum.atomics > DECIMAL_FRACTIONAL {
        Err(ContractError::Std(StdError::QuorumOutOfRange))
    } else {
        Ok(())
    }
}

/// Accepts a threshold in `[0, 1]`.
pub fn validate_threshold(threshold: Decimal) -> (r: Result<(), ContractError>)
    ensures
        r is Ok <==> threshold.is_fraction(),
        r is Err ==> r == Err::<(), ContractError>(
            ContractError::Std(StdError::ThresholdOutOfRange),
        ),
{
    if threshold.atomics > DECIMAL_FRACTIONAL {
        Err(ContractError::Std(StdError::ThresholdOutOfRange))
    } else {
        Ok(())
    }
}

/// Why settings are refused, if they are: quorum first, then threshold.
pub open spec fn fractions_error(quorum: Option<Decimal>, threshold: Option<Decimal>) -> Option<
    ContractError,
> {
    if quorum is Some && !quorum->0.is_fraction() {
        Some(ContractError::Std(StdError::QuorumOutOfRange))
    } else if threshold is Some && !threshold->0.is_fraction() {
        Some(ContractError::Std(StdError::ThresholdOutOfRange))
    } else {
        None
    }
}

/// Sets the membership governance up: `sender` becomes the owner, nothing is
/// minted and no poll exists.
pub fn instantiate(sender: String, contract_addr: String, msg: InstantiateMsg) -> (r: Result<
    Store,
    ContractError,
>)
    ensures
        match r {
            Ok(store) => {
                &&& fractions_error(Some(msg.quorum), Some(msg.threshold)) is None
                &&& store.inv()
                &&& store.config == Config {
                    owner: sender,
                    cw721_token: msg.cw721_token,
                    quorum: msg.quorum,
                    threshold: msg.threshold,
                    voting_period: msg.voting_period,
                }
                &&& store.state == State { contract_addr, poll_count: 0, total_share: 0 }
                &&& store.polls@.len() == 0
                &&& store.poll_voters@.len() == 0
                &&& store.bank.keys@.len() == 0
            },
            Err(e) => fractions_error(Some(msg.quorum), Some(msg.threshold)) == Some(e),
        },
{
    match validate_quorum(msg.quorum) {
        Err(e) => {
            return Err(e);
        },
        Ok(_) => {},
    }
    match validate_threshold(msg.threshold) {
        Err(e) => {
            return Err(e);
        },
        Ok(_) => {},
    }
    Ok(
        Store {
            config: Config {
                owner: sender,
                cw721_token: msg.cw721_token,
                quorum: msg.quorum,
                threshold: msg.threshold,
                voting_period: msg.voting_period,
            },
            state: State { contract_addr, poll_count: 0, total_share: 0 },
            polls: Vec::new(),
            poll_voters: Vec::new(),
            bank: Table::new(),
        },
    )
}

/// Why new settings are refused, if they are: the sender is not the owner,
/// or a fraction lies outside `[0, 1]`.
pub open spec fn update_config_error(
    pre: Store,
    sender: Seq<char>,
    quorum: Option<Decimal>,
    threshold: Option<Decimal>,
) -> Option<ContractError> {
    if pre.config.owner@ != sender {
        Some(ContractError::Unauthorized)
    } else {
        fractions_error(quorum, threshold)
    }
}

/// The settings after an update: each given value in place of the old one.
pub open spec fn updated_config(
    old_config: Config,
    owner: Option<String>,
    quorum: Option<Decimal>,
    threshold: Option<Decimal>,
    voting_period: Option<u64>,
) -> Config {
    Config {
        owner: match owner {
            Some(o) => o,
            None => old_config.owner,
        },
        cw721_token: old_config.cw721_token,
        quorum: match quorum {
            Some(q) => q,
            None => old_config.quorum,
        },
        threshold: match threshold {
            Some(t) => t,
            None => old_config.threshold,
        },
        voting_period: match voting_period {
            Some(v) => v,
            None => old_config.voting_period,
        },
    }
}

/// Replaces the settings that are given; the others stay. Only the owner
/// may.
pub fn update_config(
    store: &mut Store,
    sender: &String,
    owner: Option<String>,
    quorum: Option<Decimal>,
    threshold: Option<Decimal>,
    voting_period: Option<u64>,
) -> (r: Result<Response, ContractError>)
    requires
        old(store).inv(),
    ensures
        final(store).inv(),
        advances(*old(store), *final(store)),
        no_tally_shrunk(*old(store), *final(store)),
        match r {
            Ok(resp) => {
                &&& update_config_error(*old(store), sender@, quorum, threshold) is None
                &&& final(store).config == updated_config(
                    old(store).config,
                    owner,
                    quorum,
                    threshold,
                    voting_period,
                )
                &&& final(store).state == old(store).state
                &&& final(store).polls == old(store).polls
                &&& final(store).poll_voters == old(store).poll_voters
                &&& final(store).bank == old(store).bank
                &&& resp.event == Event::UpdateConfig
                &&& resp.messages@.len() == 0
            },
            Err(e) => update_config_error(*old(store), sender@, quorum, threshold) == Some(e)
                && *final(store) == *old(store),
        },
{
    let ghost pre = *store;
    if store.config.owner != *sender {
        return Err(ContractError::Unauthorized);
    }
    match quorum {
        Some(q) => {
            match validate_quorum(q) {
                Err(e) => {
                    return Err(e);
                },
                Ok(_) => {},
            }
        },
        None => {},
    }
    match threshold {
        Some(t) => {
            match validate_threshold(t) {
                Err(e) => {
                    return Err(e);
                },
                Ok(_) => {},
            }
        },
        None => {},
    }
    match owner {
        Some(o) => {
            store.config.owner = o;
        },
        None => {},
    }
    match quorum {
        Some(q) => {
            store.config.quorum = q;
        },
        None => {},
    }
    match threshold {
        Some(t) => {
            store.config.threshold = t;
        },
        None => {},
    }
    match voting_period {
        Some(v) => {
            store.config.voting_period = v;
        },
        None => {},
    }
    proof {
        assert forall|k: Seq<char>| #[trigger] store.member(k) == pre.member(k) by {}
    }
    Ok(Response::of(Event::UpdateConfig))
}

/// Why a forwarded payload is refused, if it is: it does not come from the
/// membership token, it could not be read, or the call it asks for is
/// refused.
pub open spec fn receive_error(pre: Store, height: u64, sender: Seq<char>, msg: Cw721ReceiveMsg)
    -> Option<ContractError> {
    let id = msg.token_id@;
    if pre.config.cw721_token@ != sender {
        Some(ContractError::Unauthorized)
    } else {
        match msg.msg {
            None => Some(ContractError::DataShouldBeGiven),
            Some(Cw721HookMsg::CastVote { poll_id, vote }) => cast_vote_error(
                pre,
                height,
                id,
                poll_id,
                vote,
            ),
            Some(Cw721HookMsg::CancelVote { poll_id }) => cancel_vote_error(pre, height, id, poll_id),
            Some(Cw721HookMsg::CreatePoll { title, description, link }) => create_poll_error(
                pre,
                height,
                title@,
                description@,
                opt_view(link),
            ),
            Some(Cw721HookMsg::EndPoll { poll_id }) => end_poll_error(pre, height, poll_id),
            Some(Cw721HookMsg::DelegateVote { delegator }) => delegate_error(pre, id),
            Some(Cw721HookMsg::UnDelegateVote {  }) => undelegate_error(pre, id),
            Some(Cw721HookMsg::Exit {  }) => exit_error(pre, id),
        }
    }
}

/// What a forwarded payload does: what the call it asks for does, with the
/// token id as the member who calls.
pub open spec fn received(pre: Store, post: Store, height: u64, msg: Cw721ReceiveMsg, resp: Response)
    -> bool {
    let id = msg.token_id;
    match msg.msg {
        None => false,
        Some(Cw721HookMsg::CastVote { poll_id, vote }) => votes_cast(pre, post, id@, poll_id, vote)
            && resp.event == Event::CastVote {
            poll_id,
            my_share: pre.member(id@).share,
            total_amount: cascade_total(pre, id@) as u128,
            voter: id,
            vote_option: vote,
        },
        Some(Cw721HookMsg::CancelVote { poll_id }) => vote_cancelled(pre, post, id@, poll_id)
            && resp.event == Event::CancelVote {
            poll_id,
            amount: pre.voter(poll_id, id@)->0.balance,
            voter: id,
            vote_option: pre.voter(poll_id, id@)->0.vote,
        },
        Some(Cw721HookMsg::CreatePoll { title, description, link }) => poll_created(
            pre,
            post,
            height,
            id,
            title,
            description,
            link,
        ) && resp.event == Event::CreatePoll {
            creator: id,
            poll_id: (pre.state.poll_count + 1) as u64,
            end_height: (height + pre.config.voting_period) as u64,
        },
        Some(Cw721HookMsg::EndPoll { poll_id }) => end_poll_verdict(pre, poll_id) is Ok
            && poll_ended(pre, post, poll_id, end_poll_verdict(pre, poll_id)->Ok_0)
            && pre.poll(poll_id).end_height <= height && resp.event == Event::EndPoll {
            poll_id,
            verdict: end_poll_verdict(pre, poll_id)->Ok_0,
        },
        Some(Cw721HookMsg::DelegateVote { delegator }) => delegated(pre, post, id@, delegator@)
            && resp.event == Event::Delegate { from: id, to: delegator },
        Some(Cw721HookMsg::UnDelegateVote {  }) => {
            &&& undelegated(pre, post, id@)
            &&& resp.event matches Event::Undelegate { from, to }
            &&& from == id
            &&& to@ == pre.member(id@).delegate_to->0
        },
        Some(Cw721HookMsg::Exit {  }) => burned(pre, post, id@, pre.member(id@).balance)
            && resp.event == Event::Exit { from: id, amount: pre.member(id@).balance },
    }
}

/// Takes a payload forwarded by the membership token at block `height` and
/// makes the call it asks for, with the token id as the member who calls.
pub fn receive_cw721(store: &mut Store, height: u64, sender: &String, cw721_msg: Cw721ReceiveMsg) -> (r:
    Result<Response, ContractError>)
    requires
        old(store).inv(),
    ensures
        final(store).inv(),
        advances(*old(store), *final(store)),
        match r {
            Ok(resp) => {
                &&& receive_error(*old(store), height, sender@, cw721_msg) is None
                &&& received(*old(store), *final(store), height, cw721_msg, resp)
                &&& resp.messages@.len() == 0
            },
            Err(e) => receive_error(*old(store), height, sender@, cw721_msg) == Some(e)
                && *final(store) == *old(store),
        },
{
    if store.config.cw721_token != *sender {
        return Err(ContractError::Unauthorized);
    }
    let token_id = cw721_msg.token_id;
    match cw721_msg.msg {
        None => Err(ContractError::DataShouldBeGiven),
        Some(Cw721HookMsg::CastVote { poll_id, vote }) => cast_vote(
            store,
            height,
            token_id,
            poll_id,
            vote,
        ),
        Some(Cw721HookMsg::CancelVote { poll_id }) => cancel_vote(store, height, token_id, poll_id),
        Some(Cw721HookMsg::CreatePoll { title, description, link }) => create_poll(
            store,
            height,
            token_id,
            title,
            description,
            link,
        ),
        Some(Cw721HookMsg::EndPoll { poll_id }) => end_poll(store, height, poll_id),
        Some(Cw721HookMsg::DelegateVote { delegator }) => delegate_vote(store, token_id, delegator),
        Some(Cw721HookMsg::UnDelegateVote {  }) => undelegate_vote(store, token_id),
        Some(Cw721HookMsg::Exit {  }) => exit(store, token_id),
    }
}

/// Why a call is refused, if it is.
pub open spec fn execute_error(pre: Store, height: u64, sender: Seq<char>, msg: ExecuteMsg) -> Option<
    ContractError,
> {
    match msg {
        ExecuteMsg::ReceiveNft(m) => receive_error(pre, height, sender, m),
        ExecuteMsg::Mint { recipient, amount } => mint_error(pre, sender, recipient@, amount),
        ExecuteMsg::TransferFrom { owner, recipient, amount } => transfer_from_error(
            pre,
            sender,
            owner@,
            recipient@,
            amount,
        ),
        ExecuteMsg::UpdateConfig { owner, quorum, threshold, voting_period } => update_config_error(
            pre,
            sender,
            quorum,
            threshold,
        ),
    }
}

/// What a call does.
pub open spec fn executed(
    pre: Store,
    post: Store,
    height: u64,
    sender: String,
    msg: ExecuteMsg,
    resp: Response,
) -> bool {
    match msg {
        ExecuteMsg::ReceiveNft(m) => received(pre, post, height, m, resp),
        ExecuteMsg::Mint { recipient, amount } => minted(pre, post, recipient@, amount)
            && resp.event == Event::Mint { to: recipient, amount },
        ExecuteMsg::TransferFrom { owner, recipient, amount } => {
            &&& exists|mid: Store|
                mid.inv() && burned(pre, mid, owner@, amount) && #[trigger] minted(
                    mid,
                    post,
                    recipient@,
                    amount,
                )
            &&& resp.event == Event::TransferFrom { from: owner, to: recipient, by: sender, amount }
        },
        ExecuteMsg::UpdateConfig { owner, quorum, threshold, voting_period } => {
            &&& post.config == updated_config(pre.config, owner, quorum, threshold, voting_period)
            &&& post.state == pre.state
            &&& post.polls == pre.polls
            &&& post.poll_voters == pre.poll_voters
            &&& post.bank == pre.bank
            &&& resp.event == Event::UpdateConfig
        },
    }
}

/// Makes the call `msg` asks for, sent by `sender` at block `height`.
pub fn execute(store: &mut Store, height: u64, sender: &String, msg: ExecuteMsg) -> (r: Result<
    Response,
    ContractError,
>)
    requires
        old(store).inv(),
    ensures
        final(store).inv(),
        advances(*old(store), *final(store)),
        match r {
            Ok(resp) => {
                &&& execute_error(*old(store), height, sender@, msg) is None
                &&& executed(*old(store), *final(store), height, *sender, msg, resp)
                &&& resp.messages@.len() == 0
            },
            Err(e) => execute_error(*old(store), height, sender@, msg) == Some(e) && *final(store)
                == *old(store),
        },
{
    match msg {
        ExecuteMsg::ReceiveNft(m) => receive_cw721(store, height, sender, m),
        ExecuteMsg::Mint { recipient, amount } => mint(store, sender, recipient, amount),
        ExecuteMsg::TransferFrom { owner, recipient, amount } => transfer_from(
            store,
            sender,
            owner,
            recipient,
            amount,
        ),
        ExecuteMsg::UpdateConfig { owner, quorum, threshold, voting_period } => update_config(
            store,
            sender,
            owner,
            quorum,
            threshold,
            voting_period,
        ),
    }
}

} // verus!
