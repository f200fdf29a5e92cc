use vstd::prelude::*;
use crate::cw721::error::ContractError;
use crate::cw721::state::{ContractInfoResponse, Cw721Contract};
use crate::response::{Event, Response};

verus! {

/// A kind of message a token contract may send besides the usual ones.
pub trait CustomMsg: Clone + PartialEq {

}

/// The absence of custom messages.
#[derive(Clone, Copy, Debug, PartialEq, Eq, Structural)]
pub struct Empty {}

impl CustomMsg for Empty {

}

/// A token contract that takes calls and answers questions.
pub trait Cw721: Cw721Execute + Cw721Query {

}

/// The calls a membership token takes from its holders and administrator.
pub trait Cw721Execute {
    spec fn ready(&self) -> bool;

    fn transfer_nft(&mut self, sender: &String, recipient: String, token_id: String) -> (r: Result<
        Response,
        ContractError,
    >)
        requires
            old(self).ready(),
        ensures
            final(self).ready(),
    ;

    fn execute_dao(&self, sender: &String, token_id: String, msg: Vec<u8>) -> (r: Result<
        Response,
        ContractError,
    >)
        requires
            self.ready(),
    ;

    fn update_config(&mut self, sender: &String, owner: Option<String>, gov_contract: Option<String>) -> (r:
        Result<Response, ContractError>)
        requires
            old(self).ready(),
        ensures
            final(self).ready(),
    ;
}

/// The questions a membership token answers.
pub trait Cw721Query {
    spec fn consistent(&self) -> bool;

    fn contract_info(&self) -> ContractInfoResponse;

    fn num_tokens(&self) -> u64;

    fn owner_of(&self, token_id: String) -> (r: Result<String, ContractError>)
        requires
            self.consistent(),
    ;
}

impl<T> Cw721Execute for Cw721Contract<T> {
    open spec fn ready(&self) -> bool {
        self.inv()
    }

    fn transfer_nft(&mut self, sender: &String, recipient: String, token_id: String) -> (r: Result<
        Response,
        ContractError,
    >)
        ensures
            match r {
                Ok(resp) => {
                    &&& old(self).transfer_error(sender@, token_id@) is None
                    &&& Self::transferred(*old(self), *final(self), recipient, token_id@)
                    &&& resp.event == Event::TransferNft {
                        from: old(self).token(token_id@)->0.owner,
                        to: recipient,
                        token_id,
                    }
                    &&& resp.messages@.len() == 0
                },
                Err(e) => old(self).transfer_error(sender@, token_id@) == Some(e) && *final(self)
                    == *old(self),
            },
    {
        Cw721Contract::transfer_nft(self, sender, recipient, token_id)
    }

    fn execute_dao(&self, sender: &String, token_id: String, msg: Vec<u8>) -> (r: Result<
        Response,
        ContractError,
    >)
        ensures
            match r {
                Ok(resp) => self.execute_dao_error(sender@, token_id@) is None && self.forwarded(
                    *sender,
                    token_id,
                    msg,
                    resp,
                ),
                Err(e) => self.execute_dao_error(sender@, token_id@) == Some(e),
            },
    {
        Cw721Contract::execute_dao(self, sender, token_id, msg)
    }

    fn update_config(&mut self, sender: &String, owner: Option<String>, gov_contract: Option<String>) -> (r:
        Result<Response, ContractError>)
        ensures
            match r {
                Ok(resp) => {
                    &&& old(self).update_config_error(sender@) is None
                    &&& Self::config_updated(*old(self), *final(self), owner, gov_contract)
                    &&& resp.event == Event::UpdateConfig
                    &&& resp.messages@.len() == 0
                },
                Err(e) => old(self).update_config_error(sender@) == Some(e) && *final(self) == *old(
                    self,
                ),
            },
    {
        Cw721Contract::update_config(self, sender, owner, gov_contract)
    }
}

impl<T> Cw721Query for Cw721Contract<T> {
    open spec fn consistent(&self) -> bool {
        self.inv()
    }

    fn contract_info(&self) -> (r: ContractInfoResponse)
        ensures
            r == self.contract_info,
    {
        ContractInfoResponse {
            name: self.contract_info.name.clone(),
            symbol: self.contract_info.symbol.clone(),
        }
    }

    fn num_tokens(&self) -> (n: u64)
        ensures
            n == self.token_count,
    {
        self.token_count
    }

    fn owner_of(&self, token_id: String) -> (r: Result<String, ContractError>)
        ensures
            match self.token(token_id@) {
                Some(t) => r == Ok::<String, ContractError>(t.owner),
                None => r == Err::<String, ContractError>(
                    ContractError::Std(crate::error::StdError::NotFound),
                ),
            },
    {
        match self.tokens.find(&token_id) {
            Some(i) => Ok(self.tokens.vals[i].owner.clone()),
            None => Err(ContractError::Std(crate::error::StdError::NotFound)),
        }
    }
}

impl<T> Cw721 for Cw721Contract<T> {

}

} // verus!
