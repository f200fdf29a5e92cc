use dao_gov::contract::instantiate;
use dao_gov::cw721::msg::{InstantiateMsg as TokenInstantiateMsg, MintMsg};
use dao_gov::cw721::state::Cw721Contract;
use dao_gov::cw721::traits::Empty;
use dao_gov::decimal::Decimal;
use dao_gov::delegation::delegate_vote;
use dao_gov::bank::compute_locked_balance;
use dao_gov::execute::{create_poll, end_poll, mint};
use dao_gov::fungible::contract::instantiate as instantiate_fungible;
use dao_gov::fungible::msg::InstantiateMsg as FungibleInstantiateMsg;
use dao_gov::fungible::polls::{cast_vote as cast_amount, create_poll as propose};
use dao_gov::fungible::staking::stake_voting_tokens;
use dao_gov::fungible::state::Store as FungibleStore;
use dao_gov::msg::InstantiateMsg;
use dao_gov::state::Store;
use dao_gov::utils::{PollStatus, VoteInfo, VoteOption};
use dao_gov::validate::keys_distinct;
use dao_gov::voting::cast_vote;

fn w(x: &str) -> String {
    x.to_string()
}

fn busy_store() -> Store {
    let msg = InstantiateMsg {
        cw721_token: w("nft"),
        quorum: Decimal::percent(10),
        threshold: Decimal::percent(50),
        voting_period: 10,
    };
    let mut store = instantiate(w("owner"), w("gov"), msg).unwrap();
    assert!(store.is_valid());
    mint(&mut store, &w("owner"), w("A"), 100).unwrap();
    mint(&mut store, &w("owner"), w("B"), 400).unwrap();
    mint(&mut store, &w("owner"), w("C"), 900).unwrap();
    create_poll(&mut store, 1, w("A"), w("first"), w("text"), None).unwrap();
    create_poll(&mut store, 1, w("A"), w("second"), w("text"), None).unwrap();
    delegate_vote(&mut store, w("A"), w("B")).unwrap();
    cast_vote(&mut store, 2, w("B"), 1, VoteOption::Yes).unwrap();
    cast_vote(&mut store, 2, w("C"), 1, VoteOption::No).unwrap();
    cast_vote(&mut store, 2, w("C"), 2, VoteOption::No).unwrap();
    end_poll(&mut store, 11, 1).unwrap();
    store
}

#[test]
fn stores_made_by_the_library_are_valid() {
    assert!(busy_store().is_valid());
}

#[test]
fn tampered_stores_are_not_valid() {
    let spoil: Vec<fn(&mut Store)> = vec![
        |s| s.config.quorum = Decimal::percent(101),
        |s| s.config.threshold = Decimal::new(u128::MAX),
        |s| s.state.poll_count = 3,
        |s| s.state.total_share += 1,
        |s| s.polls[1].id = 1,
        |s| {
            s.poll_voters.pop();
        },
        |s| s.poll_voters[1].keys.push("C".to_string()),
        |s| {
            let key = s.poll_voters[1].keys[0].clone();
            s.poll_voters[1].keys.push(key);
            s.poll_voters[1].vals.push(VoteInfo { vote: VoteOption::Yes, balance: 0 });
        },
        |s| s.bank.keys[0] = "B".to_string(),
        |s| s.bank.vals[0].balance += 21,
        |s| s.bank.vals[0].share += 1,
        |s| s.bank.vals[0].locked_share.push((3, VoteInfo { vote: VoteOption::Yes, balance: 1 })),
        |s| s.bank.vals[0].locked_share.push((0, VoteInfo { vote: VoteOption::Yes, balance: 1 })),
        |s| {
            s.bank.vals[0]
                .locked_share
                .push((1, VoteInfo { vote: VoteOption::Yes, balance: u64::MAX as u128 + 1 }))
        },
        |s| s.bank.vals[0].delegate_to = None,
        |s| s.bank.vals[0].delegate_to = Some("C".to_string()),
        |s| s.bank.vals[0].delegate_to = Some("nobody".to_string()),
        |s| s.bank.vals[1].delegated_from.push("C".to_string()),
        |s| s.bank.vals[1].delegated_from.push("A".to_string()),
        |s| s.bank.vals[1].delegated_from.push("nobody".to_string()),
        |s| s.bank.vals[2].locked_share.clear(),
        |s| {
            s.poll_voters[1].keys.push("nobody".to_string());
            s.poll_voters[1].vals.push(VoteInfo { vote: VoteOption::Yes, balance: 0 });
        },
    ];
    for (i, f) in spoil.iter().enumerate() {
        let mut store = busy_store();
        f(&mut store);
        assert!(!store.is_valid(), "spoiled store {} passes for valid", i);
    }
}

#[test]
fn distinct_keys_are_told_from_repeated_ones() {
    let keys = |xs: &[&str]| xs.iter().map(|x| x.to_string()).collect::<Vec<String>>();
    assert!(keys_distinct(&keys(&[])));
    assert!(keys_distinct(&keys(&["a"])));
    assert!(keys_distinct(&keys(&["a", "b", "c", ""])));
    assert!(!keys_distinct(&keys(&["a", "b", "a"])));
    assert!(!keys_distinct(&keys(&["b", "a", "a"])));
    assert!(!keys_distinct(&keys(&["", ""])));
}

#[test]
fn the_locked_vote_reduction() {
    let mut store = busy_store();
    let c = store.bank.find(&w("C")).unwrap();
    assert_eq!(store.bank.vals[c].locked_share.len(), 2);
    assert!(store.poll_voters[0].find(&w("C")).is_some());
    mint(&mut store, &w("owner"), w("C"), 700).unwrap();
    assert_eq!(store.bank.vals[c].share, 40);
    // the vote in the poll that is over weighed 30, the live one 30 too
    assert_eq!(compute_locked_balance(&mut store, c), 30);
    assert_eq!(
        store.bank.vals[c].locked_share,
        vec![(2, VoteInfo { vote: VoteOption::No, balance: 30 })]
    );
    assert!(store.poll_voters[0].find(&w("C")).is_none());
    assert!(store.poll_voters[0].find(&w("B")).is_some());
    assert!(store.poll_voters[1].find(&w("C")).is_some());
    end_poll(&mut store, 11, 2).unwrap();
    assert_eq!(compute_locked_balance(&mut store, c), 0);
    assert!(store.bank.vals[c].locked_share.is_empty());
    assert!(store.poll_voters[1].keys.is_empty());
    let a = store.bank.find(&w("A")).unwrap();
    assert_eq!(compute_locked_balance(&mut store, a), 0);
    assert!(store.is_valid());
}

fn busy_fungible_store() -> FungibleStore {
    let msg = FungibleInstantiateMsg {
        cw20_token: w("cw20"),
        quorum: Decimal::percent(10),
        threshold: Decimal::percent(50),
        voting_period: 10,
        timelock_period: 10,
        proposal_deposit: 5,
        snapshot_period: 3,
    };
    let mut store = instantiate_fungible(w("owner"), w("gov"), msg).unwrap();
    assert!(store.is_valid());
    stake_voting_tokens(&mut store, 100, w("A"), 100).unwrap();
    stake_voting_tokens(&mut store, 150, w("B"), 50).unwrap();
    propose(&mut store, 1, w("A"), 5, w("first"), w("text"), None, None).unwrap();
    propose(&mut store, 1, w("B"), 7, w("second"), w("text"), None, None).unwrap();
    cast_amount(&mut store, 162, 2, w("A"), 1, VoteOption::Yes, 10).unwrap();
    dao_gov::fungible::polls::end_poll(&mut store, 162, 11, 2).unwrap();
    store
}

#[test]
fn fungible_stores_made_by_the_library_are_valid() {
    assert!(busy_fungible_store().is_valid());
}

#[test]
fn tampered_fungible_stores_are_not_valid() {
    let spoil: Vec<fn(&mut FungibleStore)> = vec![
        |s| s.config.quorum = Decimal::percent(101),
        |s| s.config.threshold = Decimal::percent(101),
        |s| s.state.poll_count = 1,
        |s| s.state.total_share -= 1,
        |s| s.state.total_deposit += 7,
        |s| s.polls[1].status = PollStatus::InProgress,
        |s| s.polls[0].deposit_amount = u128::MAX,
        |s| s.polls[0].id = 2,
        |s| s.poll_voters[0].vals.clear(),
        |s| s.bank.keys[1] = "A".to_string(),
        |s| s.bank.vals[1].share = u128::MAX,
        |s| s.bank.vals[1].locked_balance.push((3, VoteInfo { vote: VoteOption::Yes, balance: 1 })),
    ];
    for (i, f) in spoil.iter().enumerate() {
        let mut store = busy_fungible_store();
        f(&mut store);
        assert!(!store.is_valid(), "spoiled store {} passes for valid", i);
    }
}

#[test]
fn gateways_are_valid_until_tampered_with() {
    let msg = TokenInstantiateMsg { name: w("Members"), symbol: w("MBR"), owner: w("admin") };
    let mut c: Cw721Contract<Empty> = Cw721Contract::instantiate(msg);
    assert!(c.is_valid());
    for id in ["1", "2"] {
        let token = MintMsg { token_id: w(id), owner: w("alice"), token_uri: None, extension: Empty {} };
        c.mint(&w("admin"), token).unwrap();
    }
    assert!(c.is_valid());
    let mut miscounted = c.clone();
    miscounted.token_count = 3;
    assert!(!miscounted.is_valid());
    let mut doubled = c.clone();
    doubled.tokens.keys[1] = w("1");
    assert!(!doubled.is_valid());
}
