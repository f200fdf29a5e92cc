use vstd::prelude::*;

verus! {

/// What sets the membership token up.
#[derive(Clone, Debug, PartialEq, Eq)]
pub struct InstantiateMsg {
    pub name: String,
    pub symbol: String,
    pub owner: String,
}

/// A token to mint.
#[derive(Clone, Debug, PartialEq, Eq)]
pub struct MintMsg<T> {
    pub token_id: String,
    pub owner: String,
    pub token_uri: Option<String>,
    pub extension: T,
}

/// The calls the membership token takes.
#[derive(Clone, Debug, PartialEq, Eq)]
pub enum ExecuteMsg<T> {
    Mint(MintMsg<T>),
    TransferNft { recipient: String, token_id: String },
    ExecuteDAO { token_id: String, msg: Vec<u8> },
}

} // verus!
