use dao_gov::cw721::error::ContractError;
use dao_gov::cw721::msg::{ExecuteMsg, InstantiateMsg, MintMsg};
use dao_gov::cw721::state::{ContractInfoResponse, Cw721Contract};
use dao_gov::cw721::traits::{Cw721Execute, Cw721Query, Empty};
use dao_gov::error::StdError;
use dao_gov::response::{Event, Message};

fn n(x: &str) -> String {
    x.to_string()
}

fn token(id: &str, owner: &str) -> MintMsg<Empty> {
    MintMsg { token_id: n(id), owner: n(owner), token_uri: None, extension: Empty {} }
}

fn gateway() -> Cw721Contract<Empty> {
    Cw721Contract::instantiate(InstantiateMsg { name: n("Members"), symbol: n("MBR"), owner: n("admin") })
}

#[test]
fn gateway_starts_empty() {
    let c = gateway();
    assert_eq!(c.contract_info(), ContractInfoResponse { name: n("Members"), symbol: n("MBR") });
    assert_eq!(c.num_tokens(), 0);
    assert_eq!(c.owner, "admin");
    assert_eq!(c.gov_contract, None);
}

#[test]
fn only_the_administrator_mints_and_no_id_twice() {
    let mut c = gateway();
    assert_eq!(c.mint(&n("alice"), token("1", "alice")).unwrap_err(), ContractError::Unauthorized);
    let resp = c.mint(&n("admin"), token("1", "alice")).unwrap();
    assert_eq!(resp.event, Event::MintNft { minter: n("admin"), token_id: n("1") });
    assert_eq!(c.mint(&n("admin"), token("1", "bob")).unwrap_err(), ContractError::Claimed);
    c.mint(&n("admin"), token("2", "bob")).unwrap();
    assert_eq!(c.num_tokens(), 2);
    assert_eq!(c.owner_of(n("1")).unwrap(), "alice");
    assert_eq!(c.owner_of(n("2")).unwrap(), "bob");
    assert_eq!(c.owner_of(n("3")).unwrap_err(), ContractError::Std(StdError::NotFound));
}

#[test]
fn only_the_administrator_transfers() {
    let mut c = gateway();
    c.mint(&n("admin"), token("1", "alice")).unwrap();
    assert_eq!(
        Cw721Contract::transfer_nft(&mut c, &n("alice"), n("bob"), n("1")).unwrap_err(),
        ContractError::Unauthorized
    );
    assert_eq!(
        Cw721Contract::transfer_nft(&mut c, &n("admin"), n("bob"), n("9")).unwrap_err(),
        ContractError::Std(StdError::NotFound)
    );
    let resp = Cw721Execute::transfer_nft(&mut c, &n("admin"), n("bob"), n("1")).unwrap();
    assert_eq!(resp.event, Event::TransferNft { from: n("alice"), to: n("bob"), token_id: n("1") });
    assert_eq!(c.owner_of(n("1")).unwrap(), "bob");
    assert_eq!(c.num_tokens(), 1);
}

#[test]
fn the_holder_forwards_to_the_governance() {
    let mut c = gateway();
    c.mint(&n("admin"), token("1", "alice")).unwrap();
    assert_eq!(
        Cw721Contract::execute_dao(&c, &n("alice"), n("1"), vec![1, 2]).unwrap_err(),
        ContractError::Std(StdError::NotFound)
    );
    assert_eq!(
        Cw721Contract::update_config(&mut c, &n("alice"), None, Some(n("gov"))).unwrap_err(),
        ContractError::Unauthorized
    );
    Cw721Contract::update_config(&mut c, &n("admin"), None, Some(n("gov"))).unwrap();
    assert_eq!(
        Cw721Contract::execute_dao(&c, &n("bob"), n("1"), vec![1, 2]).unwrap_err(),
        ContractError::Unauthorized
    );
    assert_eq!(
        Cw721Contract::execute_dao(&c, &n("alice"), n("2"), vec![1, 2]).unwrap_err(),
        ContractError::Std(StdError::NotFound)
    );
    let resp = Cw721Contract::execute_dao(&c, &n("alice"), n("1"), vec![1, 2]).unwrap();
    assert_eq!(resp.event, Event::ExecuteDao { sender: n("alice"), token_id: n("1") });
    assert_eq!(
        resp.messages,
        vec![Message::ReceiveNft {
            contract: n("gov"),
            sender: n("alice"),
            token_id: n("1"),
            msg: vec![1, 2]
        }]
    );
    Cw721Contract::update_config(&mut c, &n("admin"), Some(n("heir")), None).unwrap();
    assert_eq!(c.owner, "heir");
    assert_eq!(c.gov_contract, Some(n("gov")));
}

#[test]
fn gateway_execute_dispatches() {
    let mut c = gateway();
    c.execute(&n("admin"), ExecuteMsg::Mint(token("1", "alice"))).unwrap();
    c.execute(&n("admin"), ExecuteMsg::TransferNft { recipient: n("bob"), token_id: n("1") }).unwrap();
    assert_eq!(c.owner_of(n("1")).unwrap(), "bob");
    assert_eq!(
        c.execute(&n("bob"), ExecuteMsg::ExecuteDAO { token_id: n("1"), msg: vec![] }).unwrap_err(),
        ContractError::Std(StdError::NotFound)
    );
    assert_eq!(
        c.execute(&n("bob"), ExecuteMsg::Mint(token("2", "bob"))).unwrap_err(),
        ContractError::Unauthorized
    );
}

#[test]
fn the_calls_of_the_trait_do_as_the_contract_does() {
    let mut c = gateway();
    c.mint(&n("admin"), token("1", "alice")).unwrap();
    assert_eq!(
        Cw721Execute::update_config(&mut c, &n("alice"), Some(n("alice")), None).unwrap_err(),
        ContractError::Unauthorized
    );
    let resp = Cw721Execute::update_config(&mut c, &n("admin"), None, Some(n("gov"))).unwrap();
    assert_eq!(resp.event, Event::UpdateConfig);
    assert_eq!(c.gov_contract, Some(n("gov")));
    assert_eq!(c.owner, "admin");
    assert_eq!(
        Cw721Execute::execute_dao(&c, &n("bob"), n("1"), vec![7]).unwrap_err(),
        ContractError::Unauthorized
    );
    let resp = Cw721Execute::execute_dao(&c, &n("alice"), n("1"), vec![7]).unwrap();
    assert_eq!(
        resp.messages,
        vec![Message::ReceiveNft {
            contract: n("gov"),
            sender: n("alice"),
            token_id: n("1"),
            msg: vec![7]
        }]
    );
    assert_eq!(
        Cw721Execute::transfer_nft(&mut c, &n("alice"), n("bob"), n("1")).unwrap_err(),
        ContractError::Unauthorized
    );
    Cw721Execute::transfer_nft(&mut c, &n("admin"), n("bob"), n("1")).unwrap();
    assert_eq!(c.owner_of(n("1")).unwrap(), "bob");
}
