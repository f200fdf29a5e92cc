use dao_gov::decimal::Decimal;
use dao_gov::error::{ContractError, StdError, ValidateError};
use dao_gov::fungible::contract::{execute, instantiate, receive_cw20, update_config, ConfigUpdate};
use dao_gov::fungible::execute::{execute_poll, execute_poll_messages, execution_order, reply};
use dao_gov::fungible::msg::{Cw20ReceiveMsg, ExecuteMsg, InstantiateMsg, QueryMsg};
use dao_gov::fungible::polls::{cast_vote, create_poll, end_poll, snapshot_poll};
use dao_gov::fungible::query::{
    query, query_config, query_poll, query_polls, query_staker, query_state, query_voters,
    QueryResponse,
};
use dao_gov::fungible::staking::{stake_voting_tokens, withdraw_voting_tokens};
use dao_gov::fungible::state::Store;
use dao_gov::msg::{Cw20HookMsg, PollExecuteMsg};
use dao_gov::response::{Event, Message};
use dao_gov::utils::{OrderBy, PollStatus, Verdict, VoteInfo, VoteOption};

const ADMIN: &str = "admin";
const CW20: &str = "cw20";
const SELF: &str = "governance";
const H: u64 = 1000;

fn t(x: &str) -> String {
    x.to_string()
}

fn new_store() -> Store {
    instantiate(
        t(ADMIN),
        t(SELF),
        InstantiateMsg {
            cw20_token: t(CW20),
            quorum: Decimal::percent(10),
            threshold: Decimal::percent(50),
            voting_period: 50,
            timelock_period: 50,
            proposal_deposit: 10,
            snapshot_period: 30,
        },
    )
    .unwrap()
}

fn propose(store: &mut Store, by: &str, deposit: u128, msgs: Option<Vec<PollExecuteMsg>>) -> u64 {
    let resp =
        create_poll(store, H, t(by), deposit, t("A title"), t("A description"), None, msgs).unwrap();
    match resp.event {
        Event::CreatePoll { poll_id, .. } => poll_id,
        _ => panic!("unexpected event"),
    }
}

fn deposits_in_progress(store: &Store) -> u128 {
    store
        .polls
        .iter()
        .filter(|p| p.status == PollStatus::InProgress)
        .map(|p| p.deposit_amount)
        .sum()
}

fn shares(store: &Store) -> u128 {
    store.bank.vals.iter().map(|tm| tm.share).sum()
}

fn two_stakers() -> Store {
    let mut store = new_store();
    let resp = stake_voting_tokens(&mut store, 100, t("U1"), 100).unwrap();
    assert_eq!(resp.event, Event::Staking { sender: t("U1"), share: 100, amount: 100 });
    assert_eq!(store.state.total_share, 100);
    let resp = stake_voting_tokens(&mut store, 200, t("U2"), 100).unwrap();
    assert_eq!(resp.event, Event::Staking { sender: t("U2"), share: 100, amount: 100 });
    assert_eq!(store.state.total_share, 200);
    store
}

fn calls() -> Vec<PollExecuteMsg> {
    vec![
        PollExecuteMsg { order: 3, contract: t("c"), msg: vec![3] },
        PollExecuteMsg { order: 1, contract: t("a"), msg: vec![1] },
        PollExecuteMsg { order: 2, contract: t("b1"), msg: vec![2, 1] },
        PollExecuteMsg { order: 2, contract: t("b2"), msg: vec![2, 2] },
        PollExecuteMsg { order: 0, contract: t("z"), msg: vec![] },
    ]
}

#[test]
fn fge_happy_path() {
    let mut store = two_stakers();
    let id = propose(&mut store, "U1", 10, Some(calls()));
    assert_eq!(id, 1);
    assert_eq!(query_poll(&store, 1).unwrap().end_height, H + 50);
    assert_eq!(store.state.total_deposit, 10);
    let resp = cast_vote(&mut store, 210, H + 1, t("U2"), 1, VoteOption::Yes, 80).unwrap();
    assert_eq!(
        resp.event,
        Event::Vote { poll_id: 1, amount: 80, voter: t("U2"), vote_option: VoteOption::Yes }
    );
    assert_eq!(query_poll(&store, 1).unwrap().yes_votes, 80);
    let resp = end_poll(&mut store, 200, H + 50, 1).unwrap();
    assert_eq!(resp.event, Event::EndPoll { poll_id: 1, verdict: Verdict::Passed });
    assert_eq!(
        resp.messages,
        vec![Message::Transfer { token: t(CW20), recipient: t("U1"), amount: 10 }]
    );
    let poll = query_poll(&store, 1).unwrap();
    assert_eq!(poll.status, PollStatus::Passed);
    assert_eq!(poll.total_balance_at_end_poll, Some(190));
    assert_eq!(store.state.total_deposit, 0);
    let resp = execute_poll(&mut store, H + 100, 1).unwrap();
    assert_eq!(resp.event, Event::ExecutePoll { poll_id: 1 });
    assert_eq!(
        resp.messages,
        vec![Message::RunPollMessages { contract: t(SELF), poll_id: 1, reply_id: 1 }]
    );
    assert_eq!(store.tmp_poll_id, 1);
    assert_eq!(query_poll(&store, 1).unwrap().status, PollStatus::Passed);
    let resp = execute_poll_messages(&mut store, &t(SELF), 1).unwrap();
    assert_eq!(resp.event, Event::ExecutePollMsgs { poll_id: 1 });
    assert_eq!(
        resp.messages,
        vec![
            Message::Execute { contract: t("z"), msg: vec![] },
            Message::Execute { contract: t("a"), msg: vec![1] },
            Message::Execute { contract: t("b1"), msg: vec![2, 1] },
            Message::Execute { contract: t("b2"), msg: vec![2, 2] },
            Message::Execute { contract: t("c"), msg: vec![3] },
        ]
    );
    assert_eq!(query_poll(&store, 1).unwrap().status, PollStatus::Executed);
}

#[test]
fn fge_quorum_miss() {
    let mut store = two_stakers();
    let id = propose(&mut store, "U1", 10, None);
    cast_vote(&mut store, 210, H + 1, t("U2"), id, VoteOption::Yes, 5).unwrap();
    let resp = end_poll(&mut store, 205, H + 50, id).unwrap();
    assert_eq!(resp.event, Event::EndPoll { poll_id: id, verdict: Verdict::QuorumNotReached });
    assert_eq!(Verdict::QuorumNotReached.rejected_reason(), "Quorum not reached");
    assert!(resp.messages.is_empty());
    assert_eq!(query_poll(&store, id).unwrap().status, PollStatus::Rejected);
    assert_eq!(query_poll(&store, id).unwrap().total_balance_at_end_poll, Some(195));
    assert_eq!(store.state.total_deposit, 0);
}

#[test]
fn fge_threshold_miss_refunds() {
    let mut store = two_stakers();
    let id = propose(&mut store, "U1", 25, None);
    cast_vote(&mut store, 225, H + 1, t("U1"), id, VoteOption::Yes, 40).unwrap();
    cast_vote(&mut store, 225, H + 1, t("U2"), id, VoteOption::No, 40).unwrap();
    let resp = end_poll(&mut store, 225, H + 50, id).unwrap();
    assert_eq!(resp.event, Event::EndPoll { poll_id: id, verdict: Verdict::ThresholdNotReached });
    assert_eq!(Verdict::ThresholdNotReached.rejected_reason(), "Threshold not reached");
    assert_eq!(Verdict::Passed.rejected_reason(), "");
    assert_eq!(
        resp.messages,
        vec![Message::Transfer { token: t(CW20), recipient: t("U1"), amount: 25 }]
    );
    assert_eq!(query_poll(&store, id).unwrap().status, PollStatus::Rejected);
}

#[test]
fn fge_withdraw_locking() {
    let mut store = new_store();
    stake_voting_tokens(&mut store, 100, t("U1"), 100).unwrap();
    let id = propose(&mut store, "U1", 10, None);
    cast_vote(&mut store, 110, H + 1, t("U1"), id, VoteOption::Yes, 60).unwrap();
    assert_eq!(
        withdraw_voting_tokens(&mut store, 110, t("U1"), Some(50)).unwrap_err(),
        ContractError::InvalidWithdrawAmount
    );
    let resp = withdraw_voting_tokens(&mut store, 110, t("U1"), Some(10)).unwrap();
    assert_eq!(resp.event, Event::Withdraw { recipient: t("U1"), amount: 10 });
    assert_eq!(
        resp.messages,
        vec![Message::Transfer { token: t(CW20), recipient: t("U1"), amount: 10 }]
    );
    assert_eq!(store.state.total_share, 90);
    // all that is not locked: 90 less the 60 that are
    let resp = withdraw_voting_tokens(&mut store, 100, t("U1"), None).unwrap();
    assert_eq!(resp.event, Event::Withdraw { recipient: t("U1"), amount: 30 });
    assert_eq!(store.state.total_share, 60);
    assert_eq!(query_staker(&store, 70, t("U1")).unwrap().share, 60);
    assert_eq!(
        withdraw_voting_tokens(&mut store, 70, t("U1"), Some(1)).unwrap_err(),
        ContractError::InvalidWithdrawAmount
    );
}

#[test]
fn withdraw_drops_stale_locks() {
    let mut store = new_store();
    stake_voting_tokens(&mut store, 100, t("U1"), 100).unwrap();
    let id = propose(&mut store, "U1", 10, None);
    cast_vote(&mut store, 110, H + 1, t("U1"), id, VoteOption::Yes, 60).unwrap();
    end_poll(&mut store, 110, H + 50, id).unwrap();
    assert_eq!(store.poll_voters[0].keys.len(), 1);
    let resp = withdraw_voting_tokens(&mut store, 100, t("U1"), None).unwrap();
    assert_eq!(resp.event, Event::Withdraw { recipient: t("U1"), amount: 100 });
    assert!(store.poll_voters[0].keys.is_empty());
    assert!(store.bank.vals[0].locked_balance.is_empty());
    assert_eq!(store.state.total_share, 0);
}

#[test]
fn withdraw_refusals() {
    let mut store = new_store();
    assert_eq!(
        withdraw_voting_tokens(&mut store, 0, t("U1"), None).unwrap_err(),
        ContractError::NothingStaked
    );
    stake_voting_tokens(&mut store, 100, t("U1"), 100).unwrap();
    propose(&mut store, "U1", 10, None);
    let before = store.clone();
    // the balance does not cover the deposit
    assert_eq!(
        withdraw_voting_tokens(&mut store, 9, t("U1"), None).unwrap_err(),
        ContractError::Std(StdError::Overflow)
    );
    // nothing is staked according to the balance
    assert_eq!(
        withdraw_voting_tokens(&mut store, 10, t("U1"), Some(1)).unwrap_err(),
        ContractError::Std(StdError::DivideByZero)
    );
    assert_eq!(
        withdraw_voting_tokens(&mut store, 110, t("U1"), Some(101)).unwrap_err(),
        ContractError::InvalidWithdrawAmount
    );
    assert_eq!(store, before);
}

#[test]
fn withdraw_takes_at_least_one_unit_of_share() {
    let mut store = new_store();
    stake_voting_tokens(&mut store, 10, t("U1"), 10).unwrap();
    // the share is worth a hundred times its number
    let resp = withdraw_voting_tokens(&mut store, 1000, t("U1"), Some(50)).unwrap();
    assert_eq!(resp.event, Event::Withdraw { recipient: t("U1"), amount: 50 });
    assert_eq!(store.state.total_share, 9);
}

#[test]
fn stake_is_credited_in_proportion() {
    let mut store = new_store();
    stake_voting_tokens(&mut store, 100, t("U1"), 100).unwrap();
    // the 100 staked have grown to 300 before 150 more come in
    let resp = stake_voting_tokens(&mut store, 450, t("U2"), 150).unwrap();
    assert_eq!(resp.event, Event::Staking { sender: t("U2"), share: 50, amount: 150 });
    assert_eq!(store.state.total_share, 150);
    assert_eq!(query_staker(&store, 450, t("U2")).unwrap().balance, 150);
    assert_eq!(query_staker(&store, 450, t("U1")).unwrap().balance, 300);
    // rounding is down
    let resp = stake_voting_tokens(&mut store, 457, t("U2"), 7).unwrap();
    assert_eq!(resp.event, Event::Staking { sender: t("U2"), share: 2, amount: 7 });
    assert_eq!(shares(&store), store.state.total_share);
}

#[test]
fn stake_refusals() {
    let mut store = new_store();
    assert_eq!(
        stake_voting_tokens(&mut store, 100, t("U1"), 0).unwrap_err(),
        ContractError::InsufficientFunds
    );
    assert_eq!(
        stake_voting_tokens(&mut store, 99, t("U1"), 100).unwrap_err(),
        ContractError::Std(StdError::Overflow)
    );
    stake_voting_tokens(&mut store, u128::MAX, t("U1"), u128::MAX).unwrap();
    let before = store.clone();
    assert_eq!(
        stake_voting_tokens(&mut store, u128::MAX, t("U2"), 1).unwrap_err(),
        ContractError::Std(StdError::Overflow)
    );
    assert_eq!(store, before);
}

#[test]
fn proposals_need_their_deposit() {
    let mut store = new_store();
    let r = create_poll(&mut store, H, t("U1"), 9, t("A title"), t("A description"), None, None);
    assert_eq!(r.unwrap_err(), ContractError::InsufficientProposalDeposit(10));
    let r = create_poll(&mut store, H, t("U1"), 9, t("abc"), t("A description"), None, None);
    assert_eq!(r.unwrap_err(), ContractError::ValidateMsg(ValidateError::TitleTooShort));
    assert_eq!(store, new_store());
    propose(&mut store, "U1", 10, None);
    propose(&mut store, "U2", 15, None);
    assert_eq!(store.state.total_deposit, 25);
    assert_eq!(store.state.poll_count, 2);
    assert_eq!(query_poll(&store, 2).unwrap().deposit_amount, 15);
    assert!(store.poll_voters[1].keys.is_empty());
}

#[test]
fn total_deposit_is_the_sum_over_polls_in_progress() {
    let mut store = two_stakers();
    let mut balance = 200;
    for deposit in [10, 20, 30, 40] {
        balance += deposit;
        propose(&mut store, "U1", deposit, None);
        assert_eq!(store.state.total_deposit, deposits_in_progress(&store));
    }
    cast_vote(&mut store, balance, H + 1, t("U1"), 2, VoteOption::Yes, 100).unwrap();
    cast_vote(&mut store, balance, H + 1, t("U2"), 3, VoteOption::No, 100).unwrap();
    for id in [3, 1, 2, 4] {
        end_poll(&mut store, balance, H + 50, id).unwrap();
        assert_eq!(store.state.total_deposit, deposits_in_progress(&store));
    }
    assert_eq!(store.state.total_deposit, 0);
    propose(&mut store, "U1", 11, None);
    assert_eq!(store.state.total_deposit, 11);
}

#[test]
fn fge_cast_vote_refusals() {
    let mut store = two_stakers();
    assert_eq!(
        cast_vote(&mut store, 200, H, t("U1"), 1, VoteOption::Yes, 1).unwrap_err(),
        ContractError::PollNotFound
    );
    let id = propose(&mut store, "U1", 10, None);
    assert_eq!(
        cast_vote(&mut store, 210, H + 51, t("U1"), id, VoteOption::Yes, 1).unwrap_err(),
        ContractError::PollNotInProgress
    );
    assert_eq!(
        cast_vote(&mut store, 210, H, t("U1"), id, VoteOption::Yes, 101).unwrap_err(),
        ContractError::InsufficientFunds
    );
    assert_eq!(
        cast_vote(&mut store, 210, H, t("nobody"), id, VoteOption::Yes, 1).unwrap_err(),
        ContractError::InsufficientFunds
    );
    assert_eq!(
        cast_vote(&mut store, 9, H, t("U1"), id, VoteOption::Yes, 1).unwrap_err(),
        ContractError::Std(StdError::Overflow)
    );
    cast_vote(&mut store, 210, H + 50, t("U1"), id, VoteOption::Yes, 100).unwrap();
    assert_eq!(
        cast_vote(&mut store, 210, H + 50, t("U1"), id, VoteOption::No, 1).unwrap_err(),
        ContractError::AlreadyVoted
    );
    let staker = query_staker(&store, 210, t("U1")).unwrap();
    assert_eq!(staker.locked_balance, vec![(id, VoteInfo { vote: VoteOption::Yes, balance: 100 })]);
}

#[test]
fn cast_vote_with_nothing_staked_at_all() {
    let mut store = new_store();
    let id = propose(&mut store, "U1", 10, None);
    assert_eq!(
        cast_vote(&mut store, 10, H, t("U1"), id, VoteOption::Yes, 0).unwrap_err(),
        ContractError::Std(StdError::DivideByZero)
    );
}

#[test]
fn the_first_snapshot_wins() {
    let mut store = two_stakers();
    let id = propose(&mut store, "U1", 10, None);
    // too early: the end is 50 blocks off, the period is 30
    assert_eq!(
        snapshot_poll(&mut store, 210, H, id).unwrap_err(),
        ContractError::SnapshotHeight
    );
    assert_eq!(
        snapshot_poll(&mut store, 210, H + 19, id).unwrap_err(),
        ContractError::SnapshotHeight
    );
    cast_vote(&mut store, 210, H + 20, t("U1"), id, VoteOption::Yes, 10).unwrap();
    assert_eq!(query_poll(&store, id).unwrap().staked_amount, None);
    let resp = snapshot_poll(&mut store, 210, H + 20, id).unwrap();
    assert_eq!(resp.event, Event::SnapshotPoll { poll_id: id, staked_amount: 200 });
    assert_eq!(query_poll(&store, id).unwrap().staked_amount, Some(200));
    assert_eq!(
        snapshot_poll(&mut store, 999, H + 21, id).unwrap_err(),
        ContractError::SnapshotAlreadyOccurred
    );
    // a later vote inside the period leaves the snapshot alone
    cast_vote(&mut store, 1210, H + 30, t("U2"), id, VoteOption::Yes, 10).unwrap();
    assert_eq!(query_poll(&store, id).unwrap().staked_amount, Some(200));
    // the turnout is measured against the snapshot
    let resp = end_poll(&mut store, 100_000, H + 50, id).unwrap();
    assert_eq!(resp.event, Event::EndPoll { poll_id: id, verdict: Verdict::Passed });
    assert_eq!(query_poll(&store, id).unwrap().total_balance_at_end_poll, Some(200));
    assert_eq!(
        snapshot_poll(&mut store, 210, H + 50, id).unwrap_err(),
        ContractError::PollNotInProgress
    );
    assert_eq!(snapshot_poll(&mut store, 210, H, 7).unwrap_err(), ContractError::PollNotFound);
}

#[test]
fn a_vote_inside_the_period_takes_the_snapshot() {
    let mut store = two_stakers();
    let id = propose(&mut store, "U1", 10, None);
    // 30 blocks before the end is not yet inside for a vote
    cast_vote(&mut store, 210, H + 20, t("U1"), id, VoteOption::Yes, 10).unwrap();
    assert_eq!(query_poll(&store, id).unwrap().staked_amount, None);
    cast_vote(&mut store, 260, H + 21, t("U2"), id, VoteOption::Yes, 10).unwrap();
    assert_eq!(query_poll(&store, id).unwrap().staked_amount, Some(250));
}

#[test]
fn end_poll_refusals() {
    let mut store = two_stakers();
    let id = propose(&mut store, "U1", 10, None);
    assert_eq!(end_poll(&mut store, 210, H + 49, id).unwrap_err(), ContractError::PollVotingPeriod);
    assert_eq!(end_poll(&mut store, 210, H + 50, 2).unwrap_err(), ContractError::PollNotFound);
    assert_eq!(
        end_poll(&mut store, 9, H + 50, id).unwrap_err(),
        ContractError::Std(StdError::Overflow)
    );
    assert_eq!(
        end_poll(&mut store, 10, H + 50, id).unwrap_err(),
        ContractError::Std(StdError::DivideByZero)
    );
    end_poll(&mut store, 210, H + 50, id).unwrap();
    assert_eq!(end_poll(&mut store, 210, H + 50, id).unwrap_err(), ContractError::PollNotInProgress);
}

#[test]
fn end_poll_with_no_share_at_all() {
    let mut store = new_store();
    let id = propose(&mut store, "U1", 10, None);
    let resp = end_poll(&mut store, 10, H + 50, id).unwrap();
    assert_eq!(resp.event, Event::EndPoll { poll_id: id, verdict: Verdict::QuorumNotReached });
    assert_eq!(query_poll(&store, id).unwrap().total_balance_at_end_poll, Some(0));
}

#[test]
fn execute_poll_waits_for_the_timelock() {
    let mut store = two_stakers();
    let id = propose(&mut store, "U1", 10, None);
    assert_eq!(execute_poll(&mut store, H + 100, id).unwrap_err(), ContractError::PollNotPassed);
    cast_vote(&mut store, 210, H + 1, t("U2"), id, VoteOption::Yes, 80).unwrap();
    end_poll(&mut store, 210, H + 60, id).unwrap();
    assert_eq!(
        execute_poll(&mut store, H + 99, id).unwrap_err(),
        ContractError::TimelockNotExpired
    );
    assert_eq!(execute_poll(&mut store, H + 100, 0).unwrap_err(), ContractError::PollNotFound);
    assert_eq!(store.tmp_poll_id, 0);
    execute_poll(&mut store, H + 100, id).unwrap();
    assert_eq!(store.tmp_poll_id, id);
}

#[test]
fn only_the_governance_runs_poll_messages() {
    let mut store = two_stakers();
    let id = propose(&mut store, "U1", 10, Some(calls()));
    assert_eq!(
        execute_poll_messages(&mut store, &t("U1"), id).unwrap_err(),
        ContractError::Unauthorized
    );
    assert_eq!(
        execute_poll_messages(&mut store, &t(SELF), id).unwrap_err(),
        ContractError::PollNotPassed
    );
    assert_eq!(
        execute_poll_messages(&mut store, &t(SELF), 9).unwrap_err(),
        ContractError::PollNotFound
    );
    cast_vote(&mut store, 210, H + 1, t("U2"), id, VoteOption::Yes, 80).unwrap();
    end_poll(&mut store, 210, H + 50, id).unwrap();
    execute_poll_messages(&mut store, &t(SELF), id).unwrap();
    assert_eq!(
        execute_poll_messages(&mut store, &t(SELF), id).unwrap_err(),
        ContractError::PollNotPassed
    );
    assert_eq!(end_poll(&mut store, 210, H + 50, id).unwrap_err(), ContractError::PollNotInProgress);
    assert_eq!(query_poll(&store, id).unwrap().status, PollStatus::Executed);
}

#[test]
fn a_poll_without_messages_sends_none() {
    let mut store = two_stakers();
    let id = propose(&mut store, "U1", 10, None);
    cast_vote(&mut store, 210, H + 1, t("U2"), id, VoteOption::Yes, 80).unwrap();
    end_poll(&mut store, 210, H + 50, id).unwrap();
    let resp = execute_poll_messages(&mut store, &t(SELF), id).unwrap();
    assert!(resp.messages.is_empty());
}

#[test]
fn messages_run_in_ascending_order() {
    assert_eq!(execution_order(&calls()), vec![4, 1, 2, 3, 0]);
    assert_eq!(execution_order(&Vec::new()), Vec::<usize>::new());
    let same: Vec<PollExecuteMsg> =
        (0..5).map(|_| PollExecuteMsg { order: 7, contract: t("c"), msg: vec![] }).collect();
    assert_eq!(execution_order(&same), vec![0, 1, 2, 3, 4]);
    let down: Vec<PollExecuteMsg> =
        (0..5).map(|i| PollExecuteMsg { order: 9 - i, contract: t("c"), msg: vec![] }).collect();
    assert_eq!(execution_order(&down), vec![4, 3, 2, 1, 0]);
}

#[test]
fn fge_update_config_replaces_what_is_given() {
    let mut store = new_store();
    let nothing = ConfigUpdate {
        owner: None,
        cw20_token: None,
        quorum: None,
        threshold: None,
        voting_period: None,
        timelock_period: None,
        proposal_deposit: None,
        snapshot_period: None,
    };
    assert_eq!(
        update_config(&mut store, &t("U1"), nothing.clone()).unwrap_err(),
        ContractError::Unauthorized
    );
    let bad = ConfigUpdate { quorum: Some(Decimal::percent(101)), ..nothing.clone() };
    assert_eq!(
        update_config(&mut store, &t(ADMIN), bad).unwrap_err(),
        ContractError::Std(StdError::QuorumOutOfRange)
    );
    let bad = ConfigUpdate { threshold: Some(Decimal::percent(101)), ..nothing.clone() };
    assert_eq!(
        update_config(&mut store, &t(ADMIN), bad).unwrap_err(),
        ContractError::Std(StdError::ThresholdOutOfRange)
    );
    assert_eq!(store, new_store());
    update_config(&mut store, &t(ADMIN), nothing.clone()).unwrap();
    assert_eq!(store, new_store());
    let some = ConfigUpdate {
        owner: Some(t("heir")),
        threshold: Some(Decimal::one()),
        timelock_period: Some(5),
        proposal_deposit: Some(99),
        ..nothing
    };
    update_config(&mut store, &t(ADMIN), some).unwrap();
    let config = query_config(&store);
    assert_eq!(config.owner, "heir");
    assert_eq!(config.cw20_token, CW20);
    assert_eq!(config.quorum, Decimal::percent(10));
    assert_eq!(config.threshold, Decimal::one());
    assert_eq!(config.voting_period, 50);
    assert_eq!(config.timelock_period, 5);
    assert_eq!(config.proposal_deposit, 99);
    assert_eq!(config.snapshot_period, 30);
}

#[test]
fn tokens_come_through_the_voting_token_only() {
    let mut store = new_store();
    let stake = |payload: Option<Cw20HookMsg>| Cw20ReceiveMsg { sender: t("U1"), amount: 40, msg: payload };
    assert_eq!(
        receive_cw20(&mut store, 40, H, &t("U1"), stake(Some(Cw20HookMsg::StakeVotingTokens {})))
            .unwrap_err(),
        ContractError::Unauthorized
    );
    assert_eq!(
        receive_cw20(&mut store, 40, H, &t(CW20), stake(None)).unwrap_err(),
        ContractError::DataShouldBeGiven
    );
    receive_cw20(&mut store, 40, H, &t(CW20), stake(Some(Cw20HookMsg::StakeVotingTokens {}))).unwrap();
    assert_eq!(store.state.total_share, 40);
    let create = Cw20HookMsg::CreatePoll {
        title: t("A title"),
        description: t("A description"),
        link: Some(t("https://example.org")),
        execute_msgs: None,
    };
    let resp = receive_cw20(&mut store, 80, H, &t(CW20), stake(Some(create))).unwrap();
    assert_eq!(resp.event, Event::CreatePoll { creator: t("U1"), poll_id: 1, end_height: H + 50 });
    assert_eq!(store.state.total_deposit, 40);
    assert_eq!(query_poll(&store, 1).unwrap().link, Some(t("https://example.org")));
}

#[test]
fn fge_execute_dispatches() {
    let mut store = two_stakers();
    let create = Cw20HookMsg::CreatePoll {
        title: t("A title"),
        description: t("A description"),
        link: None,
        execute_msgs: Some(calls()),
    };
    let received = Cw20ReceiveMsg { sender: t("U1"), amount: 10, msg: Some(create) };
    execute(&mut store, 210, H, &t(CW20), ExecuteMsg::Receive(received)).unwrap();
    let vote = ExecuteMsg::CastVote { poll_id: 1, vote: VoteOption::Yes, amount: 80 };
    execute(&mut store, 210, H + 25, &t("U2"), vote).unwrap();
    assert_eq!(
        execute(&mut store, 210, H + 25, &t("U2"), ExecuteMsg::SnapshotPoll { poll_id: 1 }).unwrap_err(),
        ContractError::SnapshotAlreadyOccurred
    );
    let resp = execute(
        &mut store,
        210,
        H + 25,
        &t("U2"),
        ExecuteMsg::WithdrawVotingTokens { amount: Some(20) },
    )
    .unwrap();
    assert_eq!(resp.event, Event::Withdraw { recipient: t("U2"), amount: 20 });
    execute(&mut store, 190, H + 50, &t("anyone"), ExecuteMsg::EndPoll { poll_id: 1 }).unwrap();
    execute(&mut store, 180, H + 100, &t("anyone"), ExecuteMsg::ExecutePoll { poll_id: 1 }).unwrap();
    assert_eq!(
        execute(&mut store, 180, H + 100, &t("anyone"), ExecuteMsg::ExecutePollMsgs { poll_id: 1 })
            .unwrap_err(),
        ContractError::Unauthorized
    );
    let resp =
        execute(&mut store, 180, H + 100, &t(SELF), ExecuteMsg::ExecutePollMsgs { poll_id: 1 }).unwrap();
    assert_eq!(resp.messages.len(), 5);
    let update = ExecuteMsg::UpdateConfig {
        owner: None,
        cw20_token: Some(t("other")),
        quorum: None,
        threshold: None,
        voting_period: None,
        timelock_period: None,
        proposal_deposit: None,
        snapshot_period: Some(1),
    };
    execute(&mut store, 180, H, &t(ADMIN), update).unwrap();
    assert_eq!(store.config.cw20_token, "other");
    assert_eq!(store.config.snapshot_period, 1);
}

#[test]
fn queries_of_the_token_governance() {
    let mut store = two_stakers();
    let first = propose(&mut store, "U1", 10, Some(calls()));
    let second = propose(&mut store, "U2", 10, None);
    cast_vote(&mut store, 220, H + 1, t("U2"), first, VoteOption::Yes, 80).unwrap();
    cast_vote(&mut store, 220, H + 1, t("U1"), first, VoteOption::No, 1).unwrap();
    end_poll(&mut store, 220, H + 50, second).unwrap();
    let state = query_state(&store);
    assert_eq!((state.poll_count, state.total_share, state.total_deposit), (2, 200, 10));
    assert_eq!(query_poll(&store, first).unwrap().execute_data, Some(calls()));
    assert_eq!(query_poll(&store, 3).unwrap_err(), ContractError::PollNotFound);
    let page = query_polls(&store, Some(PollStatus::InProgress), None, None, None);
    assert_eq!(page.polls.iter().map(|p| p.id).collect::<Vec<u64>>(), vec![first]);
    let page = query_polls(&store, None, None, Some(1), Some(OrderBy::Asc));
    assert_eq!(page.polls.iter().map(|p| p.id).collect::<Vec<u64>>(), vec![first]);
    let voters = query_voters(&store, first, None, None, Some(OrderBy::Asc)).unwrap().voters;
    assert_eq!(voters.iter().map(|v| v.voter.as_str()).collect::<Vec<&str>>(), vec!["U1", "U2"]);
    assert!(query_voters(&store, second, None, None, None).unwrap().voters.is_empty());
    assert_eq!(query_voters(&store, 0, None, None, None).unwrap_err(), ContractError::PollNotFound);
    assert_eq!(
        query_staker(&store, 5, t("U1")).unwrap_err(),
        ContractError::Std(StdError::Overflow)
    );
    assert!(matches!(query(&store, 210, QueryMsg::Config {}), Ok(QueryResponse::Config(c)) if c.proposal_deposit == 10));
    assert!(matches!(query(&store, 210, QueryMsg::State {}), Ok(QueryResponse::State(st)) if st.total_deposit == 10));
    assert!(matches!(query(&store, 210, QueryMsg::Staker { address: t("U1") }), Ok(QueryResponse::Staker(st)) if st.balance == 100));
    assert!(matches!(query(&store, 210, QueryMsg::Poll { poll_id: 2 }), Ok(QueryResponse::Poll(p)) if p.status == PollStatus::Rejected));
    let polls = QueryMsg::Polls { filter: None, start_after: None, limit: None, order_by: None };
    assert!(matches!(query(&store, 210, polls), Ok(QueryResponse::Polls(p)) if p.polls.len() == 2));
    let voters = QueryMsg::Voters { poll_id: 1, start_after: Some(t("U1")), limit: None, order_by: Some(OrderBy::Asc) };
    assert!(matches!(query(&store, 210, voters), Ok(QueryResponse::Voters(v)) if v.voters.len() == 1));
}

#[test]
fn instantiate_checks_the_fractions() {
    let msg = InstantiateMsg {
        cw20_token: t(CW20),
        quorum: Decimal::percent(100),
        threshold: Decimal::percent(150),
        voting_period: 1,
        timelock_period: 1,
        proposal_deposit: 0,
        snapshot_period: 1,
    };
    assert_eq!(
        instantiate(t(ADMIN), t(SELF), msg).unwrap_err(),
        ContractError::Std(StdError::ThresholdOutOfRange)
    );
}

#[test]
fn snapshot_after_the_end() {
    let mut store = two_stakers();
    let id = propose(&mut store, "U1", 10, None);
    assert_eq!(
        snapshot_poll(&mut store, 210, H + 51, id).unwrap_err(),
        ContractError::Std(StdError::Overflow)
    );
    snapshot_poll(&mut store, 210, H + 50, id).unwrap();
}

#[test]
fn total_share_is_the_sum_of_the_shares() {
    let mut store = new_store();
    let mut balance = 0;
    for (who, amount) in [("a", 5), ("b", 500), ("a", 17), ("c", 1), ("b", 3)] {
        balance += amount;
        stake_voting_tokens(&mut store, balance, t(who), amount).unwrap();
        assert_eq!(store.state.total_share, shares(&store));
    }
    balance += 1000;
    for (who, amount) in [("a", None), ("b", Some(100)), ("c", Some(1)), ("b", None)] {
        let resp = withdraw_voting_tokens(&mut store, balance, t(who), amount).unwrap();
        match resp.event {
            Event::Withdraw { amount, .. } => balance -= amount,
            _ => panic!("unexpected event"),
        }
        assert_eq!(store.state.total_share, shares(&store));
    }
    assert_eq!(store.state.total_share, 0);
}

#[test]
fn a_failed_execution_leaves_the_poll_passed() {
    let mut store = two_stakers();
    let id = propose(&mut store, "U1", 10, Some(calls()));
    cast_vote(&mut store, 210, H + 1, t("U2"), id, VoteOption::Yes, 80).unwrap();
    end_poll(&mut store, 210, H + 50, id).unwrap();
    execute_poll(&mut store, H + 100, id).unwrap();
    let before = store.clone();
    let resp = reply(&store, 1).unwrap();
    assert_eq!(resp.event, Event::FailedPoll { poll_id: id });
    assert!(resp.messages.is_empty());
    assert_eq!(reply(&store, 2).unwrap_err(), ContractError::Std(StdError::InvalidReplyId));
    assert_eq!(store, before);
    assert_eq!(query_poll(&store, id).unwrap().status, PollStatus::Passed);
    execute_poll(&mut store, H + 101, id).unwrap();
    execute_poll_messages(&mut store, &t(SELF), id).unwrap();
}

#[test]
fn fge_withdraw_locking_with_a_grown_balance() {
    let mut store = new_store();
    stake_voting_tokens(&mut store, 100, t("U1"), 100).unwrap();
    let id = propose(&mut store, "U1", 10, None);
    cast_vote(&mut store, 110, H + 1, t("U1"), id, VoteOption::Yes, 60).unwrap();
    // the 100 staked have grown to 200: the 60 locked are worth a share of 30,
    // the 50 asked for a share of 25
    let resp = withdraw_voting_tokens(&mut store, 210, t("U1"), Some(50)).unwrap();
    assert_eq!(resp.event, Event::Withdraw { recipient: t("U1"), amount: 50 });
    assert_eq!(store.state.total_share, 75);
    // 150 are left for a share of 75; the 60 locked are worth a share of 30
    let resp = withdraw_voting_tokens(&mut store, 160, t("U1"), None).unwrap();
    assert_eq!(resp.event, Event::Withdraw { recipient: t("U1"), amount: 90 });
    assert_eq!(store.state.total_share, 30);
    assert_eq!(query_staker(&store, 70, t("U1")).unwrap().balance, 60);
}
