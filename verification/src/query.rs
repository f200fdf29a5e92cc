use vstd::prelude::*;
use crate::accounting::{keep_live_locks, live_locks, poll_index};
use crate::decimal::Decimal;
use crate::error::ContractError;
use crate::msg::QueryMsg;
use crate::scan::{ascending, is_voters_page, limit_of, poll_page, read_poll_ids, read_poll_voters};
use crate::state::{Poll, Store};
use crate::utils::{clone_opt, opt_view, OrderBy, PollStatus, VoteInfo, VoteOption};

verus! {

/// The settings of the membership governance.
#[derive(Clone, Debug, PartialEq, Eq)]
pub struct ConfigResponse {
    pub owner: String,
    pub quorum: Decimal,
    pub threshold: Decimal,
    pub voting_period: u64,
}

/// The running totals of the membership governance.
#[derive(Clone, Debug, PartialEq, Eq)]
pub struct StateResponse {
    pub poll_count: u64,
    pub total_share: u128,
}

/// A poll of the membership governance.
#[derive(Clone, Debug, PartialEq, Eq)]
pub struct PollResponse {
    pub id: u64,
    pub creator: String,
    pub status: PollStatus,
    pub end_height: u64,
    pub title: String,
    pub description: String,
    pub link: Option<String>,
    pub yes_votes: u128,
    pub no_votes: u128,
    pub total_share_at_start_poll: u128,
    pub total_share_at_end_poll: Option<u128>,
}

/// One page of polls.
#[derive(Clone, Debug, PartialEq, Eq)]
pub struct PollsResponse {
    pub polls: Vec<PollResponse>,
}

/// One vote on record: who cast it, for which side, with what weight.
#[derive(Clone, Debug, PartialEq, Eq)]
pub struct VotersResponseItem {
    pub voter: String,
    pub vote: VoteOption,
    pub balance: u128,
}

/// One page of the votes on record in a poll.
#[derive(Clone, Debug, PartialEq, Eq)]
pub struct VotersResponse {
    pub voters: Vec<VotersResponseItem>,
}

/// What the bank says of a member: the share, which is also what it counts
/// for while any share exists, and the locks on polls in progress.
#[derive(Clone, Debug, PartialEq, Eq)]
pub struct StakerResponse {
    pub balance: u128,
    pub share: u128,
    pub locked_balance: Vec<(u64, VoteInfo)>,
}

/// An answer of the membership governance.
#[derive(Clone, Debug, PartialEq, Eq)]
pub enum QueryResponse {
    Config(ConfigResponse),
    State(StateResponse),
    Member(StakerResponse),
    Poll(PollResponse),
    Polls(PollsResponse),
    Voters(VotersResponse),
}

/// The settings, as an answer.
pub fn query_config(store: &Store) -> (r: Result<ConfigResponse, ContractError>)
    ensures
        r == Ok::<ConfigResponse, ContractError>(
            ConfigResponse {
                owner: store.config.owner,
                quorum: store.config.quorum,
                threshold: store.config.threshold,
                voting_period: store.config.voting_period,
            },
        ),
{
    Ok(
        ConfigResponse {
            owner: store.config.owner.clone(),
            quorum: store.config.quorum,
            threshold: store.config.threshold,
            voting_period: store.config.voting_period,
        },
    )
}

/// The totals, as an answer.
pub fn query_state(store: &Store) -> (r: Result<StateResponse, ContractError>)
    ensures
        r == Ok::<StateResponse, ContractError>(
            StateResponse {
                poll_count: store.state.poll_count,
                total_share: store.state.total_share,
            },
        ),
{
    Ok(StateResponse { poll_count: store.state.poll_count, total_share: store.state.total_share })
}

/// A poll as an answer.
pub open spec fn poll_response(poll: Poll) -> PollResponse {
    PollResponse {
        id: poll.id,
        creator: poll.creator,
        status: poll.status,
        end_height: poll.end_height,
        title: poll.title,
        description: poll.description,
        link: poll.link,
        yes_votes: poll.yes_votes,
        no_votes: poll.no_votes,
        total_share_at_start_poll: poll.total_share_at_start_poll,
        total_share_at_end_poll: poll.total_share_at_end_poll,
    }
}

fn respond(poll: &Poll) -> (r: PollResponse)
    ensures
        r == poll_response(*poll),
{
    PollResponse {
        id: poll.id,
        creator: poll.creator.clone(),
        status: poll.status,
        end_height: poll.end_height,
        title: poll.title.clone(),
        description: poll.description.clone(),
        link: clone_opt(&poll.link),
        yes_votes: poll.yes_votes,
        no_votes: poll.no_votes,
        total_share_at_start_poll: poll.total_share_at_start_poll,
        total_share_at_end_poll: poll.total_share_at_end_poll,
    }
}

/// The poll `poll_id`, if it exists.
pub fn query_poll(store: &Store, poll_id: u64) -> (r: Result<PollResponse, ContractError>)
    requires
        store.inv(),
    ensures
        match r {
            Ok(resp) => 1 <= poll_id <= store.state.poll_count && resp == poll_response(
                store.poll(poll_id),
            ),
            Err(e) => e == ContractError::PollNotFound && (poll_id == 0 || poll_id
                > store.state.poll_count),
        },
{
    if poll_id == 0 || poll_id > store.state.poll_count {
        return Err(ContractError::PollNotFound);
    }
    let p = poll_index(&store.polls, poll_id);
    Ok(respond(&store.polls[p]))
}

/// One page of polls: those of the status `filter`, or all; in ascending
/// order of their ids after `start_after` when that is asked for, else in
/// descending order before it; at most `limit` of them, ten when no limit
/// is named, and never more than thirty.
pub fn query_polls(
    store: &Store,
    filter: Option<PollStatus>,
    start_after: Option<u64>,
    limit: Option<u32>,
    order_by: Option<OrderBy>,
) -> (r: Result<PollsResponse, ContractError>)
    requires
        store.inv(),
    ensures
        r matches Ok(resp) && ({
            let page = poll_page(store.polls@, filter, start_after, limit, order_by);
            &&& resp.polls@.len() == page.len()
            &&& forall|k: int|
                0 <= k < page.len() ==> #[trigger] resp.polls@[k] == poll_response(
                    store.poll(page[k]),
                )
        }),
{
    let ids = read_poll_ids(&store.polls, filter, start_after, limit, order_by);
    let n = ids.len();
    let mut polls: Vec<PollResponse> = Vec::new();
    let mut k: usize = 0;
    while k < n
        invariant
            n == ids@.len(),
            k <= n,
            polls@.len() == k,
            forall|j: int| 0 <= j < ids@.len() ==> 1 <= #[trigger] ids@[j] <= store.polls@.len(),
            forall|j: int| 0 <= j < k ==> #[trigger] polls@[j] == poll_response(store.poll(ids@[j])),
        decreases n - k,
    {
        let p = poll_index(&store.polls, ids[k]);
        polls.push(respond(&store.polls[p]));
        k = k + 1;
    }
    Ok(PollsResponse { polls })
}

/// The votes of an answer as pairs of key and vote.
pub open spec fn voter_pairs(items: Seq<VotersResponseItem>) -> Seq<(String, VoteInfo)> {
    Seq::new(
        items.len(),
        |k: int| (items[k].voter, VoteInfo { vote: items[k].vote, balance: items[k].balance }),
    )
}

/// One page of the votes on record in poll `poll_id`, in the order of the
/// voters' keys: ascending after `start_after` when that is asked for, else
/// descending before it. A poll that is over shows no votes.
pub fn query_voters(
    store: &Store,
    poll_id: u64,
    start_after: Option<String>,
    limit: Option<u32>,
    order_by: Option<OrderBy>,
) -> (r: Result<VotersResponse, ContractError>)
    requires
        store.inv(),
    ensures
        match r {
            Ok(resp) => 1 <= poll_id <= store.state.poll_count && if store.poll(poll_id).status
                != PollStatus::InProgress {
                resp.voters@.len() == 0
            } else {
                is_voters_page(
                    store.poll_voters@[poll_id - 1],
                    opt_view(start_after),
                    ascending(order_by),
                    limit_of(limit),
                    voter_pairs(resp.voters@),
                )
            },
            Err(e) => e == ContractError::PollNotFound && (poll_id == 0 || poll_id
                > store.state.poll_count),
        },
{
    if poll_id == 0 || poll_id > store.state.poll_count {
        return Err(ContractError::PollNotFound);
    }
    let p = poll_index(&store.polls, poll_id);
    let mut voters: Vec<VotersResponseItem> = Vec::new();
    if store.polls[p].status != PollStatus::InProgress {
        return Ok(VotersResponse { voters });
    }
    let asc = match order_by {
        Some(OrderBy::Asc) => true,
        _ => false,
    };
    let mut page = read_poll_voters(&store.poll_voters[p], start_after, limit, asc);
    let ghost pairs = page@;
    let n = page.len();
    let mut k: usize = 0;
    while k < n
        invariant
            n == page@.len(),
            page@ == pairs,
            k <= n,
            voters@.len() == k,
            forall|j: int|
                0 <= j < k ==> (#[trigger] voters@[j]).voter == pairs[j].0 && voters@[j].vote
                    == pairs[j].1.vote && voters@[j].balance == pairs[j].1.balance,
        decreases n - k,
    {
        let voter = page[k].0.clone();
        let info = page[k].1;
        voters.push(VotersResponseItem { voter, vote: info.vote, balance: info.balance });
        k = k + 1;
    }
    proof {
        assert(voter_pairs(voters@) =~= pairs);
    }
    Ok(VotersResponse { voters })
}

/// What the bank holds for the member `member_id`: the share, the same as
/// what it counts for unless no share exists at all, and the locks on polls
/// in progress.
pub fn query_staker(store: &Store, member_id: String) -> (r: Result<StakerResponse, ContractError>)
    requires
        store.inv(),
    ensures
        r matches Ok(resp) && ({
            let m = store.member(member_id@);
            &&& resp.share == m.share
            &&& resp.balance == if store.state.total_share != 0 {
                m.share
            } else {
                0
            }
            &&& resp.locked_balance@ == live_locks(store.polls@, m.locked_share)
        }),
{
    match store.bank.find(&member_id) {
        Some(i) => {
            let share = store.bank.vals[i].share;
            let locked_balance = keep_live_locks(&store.polls, &store.bank.vals[i].locked_share);
            Ok(
                StakerResponse {
                    balance: if store.state.total_share != 0 {
                        share
                    } else {
                        0
                    },
                    share,
                    locked_balance,
                },
            )
        },
        None => {
            let locked_balance: Vec<(u64, VoteInfo)> = Vec::new();
            Ok(StakerResponse { balance: 0, share: 0, locked_balance })
        },
    }
}

/// Answers the question `msg` asks.
pub fn query(store: &Store, msg: QueryMsg) -> (r: Result<QueryResponse, ContractError>)
    requires
        store.inv(),
    ensures
        match msg {
            QueryMsg::Config {  } => r matches Ok(QueryResponse::Config(c)) && c.owner
                == store.config.owner && c.quorum == store.config.quorum && c.threshold
                == store.config.threshold && c.voting_period == store.config.voting_period,
            QueryMsg::State {  } => r == Ok::<QueryResponse, ContractError>(
                QueryResponse::State(
                    StateResponse {
                        poll_count: store.state.poll_count,
                        total_share: store.state.total_share,
                    },
                ),
            ),
            QueryMsg::Member { member_id } => {
                &&& r matches Ok(QueryResponse::Member(resp))
                &&& resp.share == store.member(member_id@).share
                &&& resp.balance == if store.state.total_share != 0 {
                    resp.share
                } else {
                    0
                }
                &&& resp.locked_balance@ == live_locks(store.polls@, store.member(member_id@).locked_share)
            },
            QueryMsg::Poll { poll_id } => if poll_id == 0 || poll_id > store.state.poll_count {
                r == Err::<QueryResponse, ContractError>(ContractError::PollNotFound)
            } else {
                r == Ok::<QueryResponse, ContractError>(
                    QueryResponse::Poll(poll_response(store.poll(poll_id))),
                )
            },
            QueryMsg::Polls { filter, start_after, limit, order_by } => {
                let page = poll_page(store.polls@, filter, start_after, limit, order_by);
                &&& r matches Ok(QueryResponse::Polls(resp))
                &&& resp.polls@.len() == page.len()
                &&& forall|k: int|
                    0 <= k < page.len() ==> #[trigger] resp.polls@[k] == poll_response(
                        store.poll(page[k]),
                    )
            },
            QueryMsg::Voters { poll_id, start_after, limit, order_by } => if poll_id == 0 || poll_id
                > store.state.poll_count {
                r == Err::<QueryResponse, ContractError>(ContractError::PollNotFound)
            } else {
                &&& r matches Ok(QueryResponse::Voters(resp))
                &&& if store.poll(poll_id).status != PollStatus::InProgress {
                    resp.voters@.len() == 0
                } else {
                    is_voters_page(
                        store.poll_voters@[poll_id - 1],
                        opt_view(start_after),
                        ascending(order_by),
                        limit_of(limit),
                        voter_pairs(resp.voters@),
                    )
                }
            },
        },
{
    match msg {
        QueryMsg::Config {  } => match query_config(store) {
            Ok(c) => Ok(QueryResponse::Config(c)),
            Err(e) => Err(e),
        },
        QueryMsg::State {  } => match query_state(store) {
            Ok(s) => Ok(QueryResponse::State(s)),
            Err(e) => Err(e),
        },
        QueryMsg::Member { member_id } => match query_staker(store, member_id) {
            Ok(m) => Ok(QueryResponse::Member(m)),
            Err(e) => Err(e),
        },
        QueryMsg::Poll { poll_id } => match query_poll(store, poll_id) {
            Ok(p) => Ok(QueryResponse::Poll(p)),
            Err(e) => Err(e),
        },
        QueryMsg::Polls { filter, start_after, limit, order_by } => match query_polls(
            store,
            filter,
            start_after,
            limit,
            order_by,
        ) {
            Ok(p) => Ok(QueryResponse::Polls(p)),
            Err(e) => Err(e),
        },
        QueryMsg::Voters { poll_id, start_after, limit, order_by } => match query_voters(
            store,
            poll_id,
            start_after,
            limit,
            order_by,
        ) {
            Ok(v) => Ok(QueryResponse::Voters(v)),
            Err(e) => Err(e),
        },
    }
}

} // verus!
