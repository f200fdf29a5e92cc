use vstd::prelude::*;
use crate::table::Table;

verus! {

/// Name and symbol of the membership token.
#[derive(Clone, Debug, PartialEq, Eq)]
pub struct ContractInfoResponse {
    pub name: String,
    pub symbol: String,
}

/// One membership token: who holds it, and what is written on it.
#[derive(Clone, Debug, PartialEq, Eq)]
pub struct TokenInfo<T> {
    pub owner: String,
    pub token_uri: Option<String>,
    pub extension: T,
}

/// The membership token: its administrator, the governance it forwards to
/// once one is set, and the tokens by their ids.
#[derive(Clone, Debug, PartialEq, Eq)]
pub struct Cw721Contract<T> {
    pub contract_info: ContractInfoResponse,
    pub owner: String,
    pub gov_contract: Option<String>,
    pub token_count: u64,
    pub tokens: Table<TokenInfo<T>>,
}

impl<T> Cw721Contract<T> {
    /// No token id occurs twice, and the count is the number of tokens.
    pub open spec fn inv(&self) -> bool {
        &&& self.tokens.wf()
        &&& self.token_count == self.tokens.keys@.len()
    }

    /// Whether the contract is consistent: whether `inv` holds of it.
    pub fn is_valid(&self) -> (b: bool)
        ensures
            b == self.inv(),
    {
        crate::validate::table_valid(&self.tokens) && self.tokens.keys.len() as u64
            == self.token_count
    }

    /// The token under `token_id`, if it has been minted.
    pub open spec fn token(&self, token_id: Seq<char>) -> Option<TokenInfo<T>> {
        self.tokens.get(token_id)
    }
}

} // verus!
