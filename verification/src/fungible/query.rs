use vstd::prelude::*;
use crate::accounting::{keep_live_locks, live_locks, poll_index};
use crate::decimal::Decimal;
use crate::error::ContractError;
use crate::fungible::msg::QueryMsg;
use crate::fungible::staking::{ratio, ratio_spec, staked_balance, total_balance};
use crate::fungible::state::{Poll, Store};
use crate::msg::PollExecuteMsg;
use crate::query::{voter_pairs, VotersResponse, VotersResponseItem};
use crate::scan::{ascending, is_voters_page, limit_of, poll_page, read_poll_ids, read_poll_voters};
use crate::utils::{clone_opt, opt_view, OrderBy, PollStatus, VoteInfo};

verus! {

/// The settings of the token governance.
#[derive(Clone, Debug, PartialEq, Eq)]
pub struct ConfigResponse {
    pub owner: String,
    pub cw20_token: String,
    pub quorum: Decimal,
    pub threshold: Decimal,
    pub voting_period: u64,
    pub timelock_period: u64,
    pub proposal_deposit: u128,
    pub snapshot_period: u64,
}

/// The running totals of the token governance.
#[derive(Clone, Debug, PartialEq, Eq)]
pub struct StateResponse {
    pub poll_count: u64,
    pub total_share: u128,
    pub total_deposit: u128,
}

/// A poll of the token governance.
#[derive(Clone, Debug, PartialEq, Eq)]
pub struct PollResponse {
    pub id: u64,
    pub creator: String,
    pub status: PollStatus,
    pub end_height: u64,
    pub title: String,
    pub description: String,
    pub link: Option<String>,
    pub deposit_amount: u128,
    pub execute_data: Option<Vec<PollExecuteMsg>>,
    pub yes_votes: u128,
    pub no_votes: u128,
    pub staked_amount: Option<u128>,
    pub total_balance_at_end_poll: Option<u128>,
}

/// One page of polls.
#[derive(Clone, Debug, PartialEq, Eq)]
pub struct PollsResponse {
    pub polls: Vec<PollResponse>,
}

/// What the bank says of a staker: the tokens the share is worth, the
/// share, and the locks on polls in progress.
#[derive(Clone, Debug, PartialEq, Eq)]
pub struct StakerResponse {
    pub balance: u128,
    pub share: u128,
    pub locked_balance: Vec<(u64, VoteInfo)>,
}

/// An answer of the token governance.
#[derive(Clone, Debug, PartialEq, Eq)]
pub enum QueryResponse {
    Config(ConfigResponse),
    State(StateResponse),
    Staker(StakerResponse),
    Poll(PollResponse),
    Polls(PollsResponse),
    Voters(VotersResponse),
}

/// The settings, as an answer.
pub fn query_config(store: &Store) -> (r: ConfigResponse)
    ensures
        r == (ConfigResponse {
            owner: store.config.owner,
            cw20_token: store.config.cw20_token,
            quorum: store.config.quorum,
            threshold: store.config.threshold,
            voting_period: store.config.voting_period,
            timelock_period: store.config.timelock_period,
            proposal_deposit: store.config.proposal_deposit,
            snapshot_period: store.config.snapshot_period,
        }),
{
    ConfigResponse {
        owner: store.config.owner.clone(),
        cw20_token: store.config.cw20_token.clone(),
        quorum: store.config.quorum,
        threshold: store.config.threshold,
        voting_period: store.config.voting_period,
        timelock_period: store.config.timelock_period,
        proposal_deposit: store.config.proposal_deposit,
        snapshot_period: store.config.snapshot_period,
    }
}

/// The totals, as an answer.
pub fn query_state(store: &Store) -> (r: StateResponse)
    ensures
        r == (StateResponse {
            poll_count: store.state.poll_count,
            total_share: store.state.total_share,
            total_deposit: store.state.total_deposit,
        }),
{
    StateResponse {
        poll_count: store.state.poll_count,
        total_share: store.state.total_share,
        total_deposit: store.state.total_deposit,
    }
}

/// Whether `resp` shows `poll`: every field as it is, the messages by their
/// contents.
pub open spec fn shows(resp: PollResponse, poll: Poll) -> bool {
    &&& resp.id == poll.id
    &&& resp.creator == poll.creator
    &&& resp.status == poll.status
    &&& resp.end_height == poll.end_height
    &&& resp.title == poll.title
    &&& resp.description == poll.description
    &&& resp.link == poll.link
    &&& resp.deposit_amount == poll.deposit_amount
    &&& resp.yes_votes == poll.yes_votes
    &&& resp.no_votes == poll.no_votes
    &&& resp.staked_amount == poll.staked_amount
    &&& resp.total_balance_at_end_poll == poll.total_balance_at_end_poll
    &&& match poll.execute_data {
        None => resp.execute_data is None,
        Some(data) => resp.execute_data is Some && same_messages(resp.execute_data->0@, data@),
    }
}

/// Whether two lists of messages hold the same messages in the same order.
pub open spec fn same_messages(a: Seq<PollExecuteMsg>, b: Seq<PollExecuteMsg>) -> bool {
    &&& a.len() == b.len()
    &&& forall|k: int|
        0 <= k < a.len() ==> (#[trigger] a[k]).order == b[k].order && a[k].contract == b[k].contract
            && a[k].msg@ == b[k].msg@
}

fn copy_messages(data: &Vec<PollExecuteMsg>) -> (r: Vec<PollExecuteMsg>)
    ensures
        same_messages(r@, data@),
{
    let n = data.len();
    let mut r: Vec<PollExecuteMsg> = Vec::new();
    let mut k: usize = 0;
    while k < n
        invariant
            n == data@.len(),
            k <= n,
            r@.len() == k,
            forall|j: int|
                0 <= j < k ==> (#[trigger] r@[j]).order == data@[j].order && r@[j].contract
                    == data@[j].contract && r@[j].msg@ == data@[j].msg@,
        decreases n - k,
    {
        r.push(
            PollExecuteMsg {
                order: data[k].order,
                contract: data[k].contract.clone(),
                msg: crate::fungible::execute::clone_bytes(&data[k].msg),
            },
        );
        k = k + 1;
    }
    r
}

fn respond(poll: &Poll) -> (r: PollResponse)
    ensures
        shows(r, *poll),
{
    PollResponse {
        id: poll.id,
        creator: poll.creator.clone(),
        status: poll.status,
        end_height: poll.end_height,
        title: poll.title.clone(),
        description: poll.description.clone(),
        link: clone_opt(&poll.link),
        deposit_amount: poll.deposit_amount,
        execute_data: match &poll.execute_data {
            Some(data) => Some(copy_messages(data)),
            None => None,
        },
        yes_votes: poll.yes_votes,
        no_votes: poll.no_votes,
        staked_amount: poll.staked_amount,
        total_balance_at_end_poll: poll.total_balance_at_end_poll,
    }
}

/// The poll `poll_id`, if it exists.
pub fn query_poll(store: &Store, poll_id: u64) -> (r: Result<PollResponse, ContractError>)
    requires
        store.inv(),
    ensures
        match r {
            Ok(resp) => 1 <= poll_id <= store.state.poll_count && shows(resp, store.poll(poll_id)),
            Err(e) => e == ContractError::PollNotFound && (poll_id == 0 || poll_id
                > store.state.poll_count),
        },
{
    if poll_id == 0 || poll_id > store.state.poll_count {
        return Err(ContractError::PollNotFound);
    }
    let p = poll_index(&store.polls, poll_id);
    Ok(respond(&store.polls[p]))
}

/// One page of polls: those of the status `filter`, or all; in ascending
/// order of their ids after `start_after` when that is asked for, else in
/// descending order before it; at most `limit` of them, ten when no limit
/// is named, and never more than thirty.
pub fn query_polls(
    store: &Store,
    filter: Option<PollStatus>,
    start_after: Option<u64>,
    limit: Option<u32>,
    order_by: Option<OrderBy>,
) -> (resp: PollsResponse)
    requires
        store.inv(),
    ensures
        ({
            let page = poll_page(store.polls@, filter, start_after, limit, order_by);
            &&& resp.polls@.len() == page.len()
            &&& forall|k: int|
                0 <= k < page.len() ==> shows(#[trigger] resp.polls@[k], store.poll(page[k]))
        }),
{
    let ids = read_poll_ids(&store.polls, filter, start_after, limit, order_by);
    let n = ids.len();
    let mut polls: Vec<PollResponse> = Vec::new();
    let mut k: usize = 0;
    while k < n
        invariant
            n == ids@.len(),
            k <= n,
            polls@.len() == k,
            forall|j: int| 0 <= j < ids@.len() ==> 1 <= #[trigger] ids@[j] <= store.polls@.len(),
            forall|j: int| 0 <= j < k ==> shows(#[trigger] polls@[j], store.poll(ids@[j])),
        decreases n - k,
    {
        let p = poll_index(&store.polls, ids[k]);
        polls.push(respond(&store.polls[p]));
        k = k + 1;
    }
    PollsResponse { polls }
}

/// One page of the votes on record in poll `poll_id`, in the order of the
/// voters' keys: ascending after `start_after` when that is asked for, else
/// descending before it. A poll that is over shows no votes.
pub fn query_voters(
    store: &Store,
    poll_id: u64,
    start_after: Option<String>,
    limit: Option<u32>,
    order_by: Option<OrderBy>,
) -> (r: Result<VotersResponse, ContractError>)
    requires
        store.inv(),
    ensures
        match r {
            Ok(resp) => 1 <= poll_id <= store.state.poll_count && if store.poll(poll_id).status
                != PollStatus::InProgress {
                resp.voters@.len() == 0
            } else {
                is_voters_page(
                    store.poll_voters@[poll_id - 1],
                    opt_view(start_after),
                    ascending(order_by),
                    limit_of(limit),
                    voter_pairs(resp.voters@),
                )
            },
            Err(e) => e == ContractError::PollNotFound && (poll_id == 0 || poll_id
                > store.state.poll_count),
        },
{
    if poll_id == 0 || poll_id > store.state.poll_count {
        return Err(ContractError::PollNotFound);
    }
    let p = poll_index(&store.polls, poll_id);
    let mut voters: Vec<VotersResponseItem> = Vec::new();
    if store.polls[p].status != PollStatus::InProgress {
        return Ok(VotersResponse { voters });
    }
    let asc = match order_by {
        Some(OrderBy::Asc) => true,
        _ => false,
    };
    let page = read_poll_voters(&store.poll_voters[p], start_after, limit, asc);
    let ghost pairs = page@;
    let n = page.len();
    let mut k: usize = 0;
    while k < n
        invariant
            n == page@.len(),
            page@ == pairs,
            k <= n,
            voters@.len() == k,
            forall|j: int|
                0 <= j < k ==> (#[trigger] voters@[j]).voter == pairs[j].0 && voters@[j].vote
                    == pairs[j].1.vote && voters@[j].balance == pairs[j].1.balance,
        decreases n - k,
    {
        let voter = page[k].0.clone();
        let info = page[k].1;
        voters.push(VotersResponseItem { voter, vote: info.vote, balance: info.balance });
        k = k + 1;
    }
    proof {
        assert(voter_pairs(voters@) =~= pairs);
    }
    Ok(VotersResponse { voters })
}

/// What a share is worth in tokens: the share in proportion of the staked
/// balance to the total share, and nothing while no share exists. An error
/// when the books do not balance or the worth leaves 128 bits.
pub open spec fn worth(store: Store, balance: u128, share: u128) -> Result<u128, ContractError> {
    if store.state.total_share == 0 {
        Ok(0u128)
    } else if staked_balance(store, balance) is None {
        Err(ContractError::Std(crate::error::StdError::Overflow))
    } else {
        ratio_spec(share, staked_balance(store, balance)->0, store.state.total_share)
    }
}

/// What the bank holds for the staker `address`, when `balance` is the
/// governance's token balance.
pub fn query_staker(store: &Store, balance: u128, address: String) -> (r: Result<
    StakerResponse,
    ContractError,
>)
    requires
        store.inv(),
    ensures
        match r {
            Ok(resp) => {
                let s = store.staker(address@);
                &&& worth(*store, balance, s.share) == Ok::<u128, ContractError>(resp.balance)
                &&& resp.share == s.share
                &&& resp.locked_balance@ == live_locks(store.polls@, s.locked_balance)
            },
            Err(e) => worth(*store, balance, store.staker(address@).share) == Err::<
                u128,
                ContractError,
            >(e),
        },
{
    let found = store.bank.find(&address);
    let share = match found {
        Some(i) => store.bank.vals[i].share,
        None => 0,
    };
    let value = if store.state.total_share == 0 {
        0
    } else {
        let total = match total_balance(store, balance) {
            Ok(t) => t,
            Err(e) => {
                return Err(e);
            },
        };
        match ratio(share, total, store.state.total_share) {
            Ok(v) => v,
            Err(e) => {
                return Err(e);
            },
        }
    };
    let locked_balance = match found {
        Some(i) => {
            keep_live_locks(&store.polls, &store.bank.vals[i].locked_balance)
        },
        None => Vec::new(),
    };
    Ok(StakerResponse { balance: value, share, locked_balance })
}

/// Answers the question `msg` asks, when `balance` is the governance's token
/// balance: by the function of that question.
pub fn query(store: &Store, balance: u128, msg: QueryMsg) -> (r: Result<QueryResponse, ContractError>)
    requires
        store.inv(),
    ensures
        match msg {
            QueryMsg::Config {  } => r matches Ok(QueryResponse::Config(c)) && c == (ConfigResponse {
                owner: store.config.owner,
                cw20_token: store.config.cw20_token,
                quorum: store.config.quorum,
                threshold: store.config.threshold,
                voting_period: store.config.voting_period,
                timelock_period: store.config.timelock_period,
                proposal_deposit: store.config.proposal_deposit,
                snapshot_period: store.config.snapshot_period,
            }),
            QueryMsg::State {  } => r matches Ok(QueryResponse::State(s)) && s == (StateResponse {
                poll_count: store.state.poll_count,
                total_share: store.state.total_share,
                total_deposit: store.state.total_deposit,
            }),
            QueryMsg::Staker { address } => match r {
                Ok(QueryResponse::Staker(resp)) => {
                    let s = store.staker(address@);
                    &&& worth(*store, balance, s.share) == Ok::<u128, ContractError>(resp.balance)
                    &&& resp.share == s.share
                    &&& resp.locked_balance@ == live_locks(store.polls@, s.locked_balance)
                },
                Ok(_) => false,
                Err(e) => worth(*store, balance, store.staker(address@).share) == Err::<
                    u128,
                    ContractError,
                >(e),
            },
            QueryMsg::Poll { poll_id } => match r {
                Ok(QueryResponse::Poll(resp)) => 1 <= poll_id <= store.state.poll_count && shows(
                    resp,
                    store.poll(poll_id),
                ),
                Ok(_) => false,
                Err(e) => e == ContractError::PollNotFound && (poll_id == 0 || poll_id
                    > store.state.poll_count),
            },
            QueryMsg::Polls { filter, start_after, limit, order_by } => {
                let page = poll_page(store.polls@, filter, start_after, limit, order_by);
                &&& r matches Ok(QueryResponse::Polls(resp))
                &&& resp.polls@.len() == page.len()
                &&& forall|k: int|
                    0 <= k < page.len() ==> shows(#[trigger] resp.polls@[k], store.poll(page[k]))
            },
            QueryMsg::Voters { poll_id, start_after, limit, order_by } => match r {
                Ok(QueryResponse::Voters(resp)) => 1 <= poll_id <= store.state.poll_count
                    && if store.poll(poll_id).status != PollStatus::InProgress {
                    resp.voters@.len() == 0
                } else {
                    is_voters_page(
                        store.poll_voters@[poll_id - 1],
                        opt_view(start_after),
                        ascending(order_by),
                        limit_of(limit),
                        voter_pairs(resp.voters@),
                    )
                },
                Ok(_) => false,
                Err(e) => e == ContractError::PollNotFound && (poll_id == 0 || poll_id
                    > store.state.poll_count),
            },
        },
{
    match msg {
        QueryMsg::Config {  } => Ok(QueryResponse::Config(query_config(store))),
        QueryMsg::State {  } => Ok(QueryResponse::State(query_state(store))),
        QueryMsg::Staker { address } => match query_staker(store, balance, address) {
            Ok(s) => Ok(QueryResponse::Staker(s)),
            Err(e) => Err(e),
        },
        QueryMsg::Poll { poll_id } => match query_poll(store, poll_id) {
            Ok(p) => Ok(QueryResponse::Poll(p)),
            Err(e) => Err(e),
        },
        QueryMsg::Polls { filter, start_after, limit, order_by } => Ok(
            QueryResponse::Polls(query_polls(store, filter, start_after, limit, order_by)),
        ),
        QueryMsg::Voters { poll_id, start_after, limit, order_by } => match query_voters(
            store,
            poll_id,
            start_after,
            limit,
            order_by,
        ) {
            Ok(v) => Ok(QueryResponse::Voters(v)),
            Err(e) => Err(e),
        },
    }
}

} // verus!
