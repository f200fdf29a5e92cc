use vstd::prelude::*;
use crate::cw721::error::ContractError;
use crate::cw721::msg::{ExecuteMsg, InstantiateMsg, MintMsg};
use crate::cw721::state::{ContractInfoResponse, Cw721Contract, TokenInfo};
use crate::error::StdError;
use crate::response::{Event, Message, Response};
use crate::table::{lemma_key_push, Table};

verus! {

impl<T> Cw721Contract<T> {
    /// Sets the membership token up, with no token minted and no governance
    /// to forward to.
    pub fn instantiate(msg: InstantiateMsg) -> (c: Self)
        ensures
            c.inv(),
            c.contract_info == (ContractInfoResponse { name: msg.name, symbol: msg.symbol }),
            c.owner == msg.owner,
            c.gov_contract is None,
            c.token_count == 0,
    {
        Cw721Contract {
            contract_info: ContractInfoResponse { name: msg.name, symbol: msg.symbol },
            owner: msg.owner,
            gov_contract: None,
            token_count: 0,
            tokens: Table::new(),
        }
    }

    /// Why a mint is refused, if it is: the sender is not the
    /// administrator, the token id is taken, or the count would leave 64
    /// bits.
    pub open spec fn mint_error(&self, sender: Seq<char>, token_id: Seq<char>) -> Option<
        ContractError,
    > {
        if self.owner@ != sender {
            Some(ContractError::Unauthorized)
        } else if self.tokens.has(token_id) {
            Some(ContractError::Claimed)
        } else if self.token_count + 1 > u64::MAX {
            Some(ContractError::Std(StdError::Overflow))
        } else {
            None
        }
    }

    /// What a mint does: the new token stands under its id, and the count
    /// grows by one. Nothing else changes.
    pub open spec fn minted(pre: Self, post: Self, msg: MintMsg<T>) -> bool {
        &&& post.token(msg.token_id@) == Some(
            TokenInfo { owner: msg.owner, token_uri: msg.token_uri, extension: msg.extension },
        )
        &&& forall|k: Seq<char>| k != msg.token_id@ ==> #[trigger] post.token(k) == pre.token(k)
        &&& post.token_count == pre.token_count + 1
        &&& post.owner == pre.owner
        &&& post.gov_contract == pre.gov_contract
        &&& post.contract_info == pre.contract_info
    }

    /// Mints the token `msg.token_id` to `msg.owner`. Only the
    /// administrator may.
    pub fn mint(&mut self, sender: &String, msg: MintMsg<T>) -> (r: Result<Response, ContractError>)
        requires
            old(self).inv(),
        ensures
            final(self).inv(),
            match r {
                Ok(resp) => {
                    &&& old(self).mint_error(sender@, msg.token_id@) is None
                    &&& Self::minted(*old(self), *final(self), msg)
                    &&& resp.event == Event::MintNft { minter: *sender, token_id: msg.token_id }
                    &&& resp.messages@.len() == 0
                },
                Err(e) => old(self).mint_error(sender@, msg.token_id@) == Some(e) && *final(self)
                    == *old(self),
            },
    {
        if self.owner != *sender {
            return Err(ContractError::Unauthorized);
        }
        if self.tokens.find(&msg.token_id).is_some() {
            return Err(ContractError::Claimed);
        }
        let count = match self.token_count.checked_add(1) {
            Some(c) => c,
            None => {
                return Err(ContractError::Std(StdError::Overflow));
            },
        };
        let token = TokenInfo { owner: msg.owner, token_uri: msg.token_uri, extension: msg.extension };
        let key = msg.token_id.clone();
        proof {
            lemma_key_push(self.tokens.keys@, key);
        }
        self.tokens.insert(key, token);
        self.token_count = count;
        Ok(Response::of(Event::MintNft { minter: sender.clone(), token_id: msg.token_id }))
    }

    /// Why a transfer is refused, if it is: the sender is not the
    /// administrator, or the token has not been minted.
    pub open spec fn transfer_error(&self, sender: Seq<char>, token_id: Seq<char>) -> Option<
        ContractError,
    > {
        if self.owner@ != sender {
            Some(ContractError::Unauthorized)
        } else if !self.tokens.has(token_id) {
            Some(ContractError::Std(StdError::NotFound))
        } else {
            None
        }
    }

    /// What a transfer does: the token has a new holder. Nothing else
    /// changes.
    pub open spec fn transferred(pre: Self, post: Self, recipient: String, token_id: Seq<char>) -> bool {
        &&& post.token(token_id) == Some(TokenInfo { owner: recipient, ..pre.token(token_id)->0 })
        &&& forall|k: Seq<char>| k != token_id ==> #[trigger] post.token(k) == pre.token(k)
        &&& post.token_count == pre.token_count
        &&& post.owner == pre.owner
        &&& post.gov_contract == pre.gov_contract
        &&& post.contract_info == pre.contract_info
    }

    /// Hands the token `token_id` to `recipient`. Only the administrator
    /// may.
    pub fn transfer_nft(&mut self, sender: &String, recipient: String, token_id: String) -> (r: Result<
        Response,
        ContractError,
    >)
        requires
            old(self).inv(),
        ensures
            final(self).inv(),
            match r {
                Ok(resp) => {
                    &&& old(self).transfer_error(sender@, token_id@) is None
                    &&& Self::transferred(*old(self), *final(self), recipient, token_id@)
                    &&& resp.event == Event::TransferNft {
                        from: old(self).token(token_id@)->0.owner,
                        to: recipient,
                        token_id,
                    }
                    &&& resp.messages@.len() == 0
                },
                Err(e) => old(self).transfer_error(sender@, token_id@) == Some(e) && *final(self)
                    == *old(self),
            },
    {
        if self.owner != *sender {
            return Err(ContractError::Unauthorized);
        }
        let i = match self.tokens.find(&token_id) {
            Some(i) => i,
            None => {
                return Err(ContractError::Std(StdError::NotFound));
            },
        };
        let from = self.tokens.vals[i].owner.clone();
        self.tokens.vals[i].owner = recipient.clone();
        Ok(Response::of(Event::TransferNft { from, to: recipient, token_id }))
    }

    /// Why a payload is not forwarded, if it is not: the token has not been
    /// minted, no governance is set, or the sender does not hold the token.
    pub open spec fn execute_dao_error(&self, sender: Seq<char>, token_id: Seq<char>) -> Option<
        ContractError,
    > {
        if !self.tokens.has(token_id) || self.gov_contract is None {
            Some(ContractError::Std(StdError::NotFound))
        } else if self.token(token_id)->0.owner@ != sender {
            Some(ContractError::Unauthorized)
        } else {
            None
        }
    }

    /// What forwarding a payload answers: the event names sender and token,
    /// and the one message hands the payload to the governance, with the
    /// sender and the token id it comes from.
    pub open spec fn forwarded(
        &self,
        sender: String,
        token_id: String,
        msg: Vec<u8>,
        resp: Response,
    ) -> bool {
        &&& resp.event == Event::ExecuteDao { sender, token_id }
        &&& resp.messages@.len() == 1
        &&& resp.messages@[0] == Message::ReceiveNft {
            contract: self.gov_contract->0,
            sender,
            token_id,
            msg,
        }
    }

    /// Forwards the payload `msg` to the governance on behalf of the token
    /// `token_id`. Only the holder of the token may.
    pub fn execute_dao(&self, sender: &String, token_id: String, msg: Vec<u8>) -> (r: Result<
        Response,
        ContractError,
    >)
        requires
            self.inv(),
        ensures
            match r {
                Ok(resp) => self.execute_dao_error(sender@, token_id@) is None && self.forwarded(
                    *sender,
                    token_id,
                    msg,
                    resp,
                ),
                Err(e) => self.execute_dao_error(sender@, token_id@) == Some(e),
            },
    {
        let i = match self.tokens.find(&token_id) {
            Some(i) => i,
            None => {
                return Err(ContractError::Std(StdError::NotFound));
            },
        };
        let contract = match &self.gov_contract {
            Some(g) => g.clone(),
            None => {
                return Err(ContractError::Std(StdError::NotFound));
            },
        };
        if self.tokens.vals[i].owner != *sender {
            return Err(ContractError::Unauthorized);
        }
        let mut messages: Vec<Message> = Vec::new();
        messages.push(
            Message::ReceiveNft { contract, sender: sender.clone(), token_id: token_id.clone(), msg },
        );
        Ok(Response { event: Event::ExecuteDao { sender: sender.clone(), token_id }, messages })
    }

    /// Why new settings are refused, if they are: the sender is not the
    /// administrator.
    pub open spec fn update_config_error(&self, sender: Seq<char>) -> Option<ContractError> {
        if self.owner@ != sender {
            Some(ContractError::Unauthorized)
        } else {
            None
        }
    }

    /// What new settings do: the administrator and the governance to
    /// forward to are replaced where a new one is given. Nothing else
    /// changes.
    pub open spec fn config_updated(
        pre: Self,
        post: Self,
        owner: Option<String>,
        gov_contract: Option<String>,
    ) -> bool {
        &&& post.owner == match owner {
            Some(o) => o,
            None => pre.owner,
        }
        &&& post.gov_contract == match gov_contract {
            Some(g) => Some(g),
            None => pre.gov_contract,
        }
        &&& post.tokens == pre.tokens
        &&& post.token_count == pre.token_count
        &&& post.contract_info == pre.contract_info
    }

    /// Replaces the administrator and the governance to forward to, where
    /// given. Only the administrator may.
    pub fn update_config(&mut self, sender: &String, owner: Option<String>, gov_contract: Option<String>) -> (r:
        Result<Response, ContractError>)
        requires
            old(self).inv(),
        ensures
            final(self).inv(),
            match r {
                Ok(resp) => {
                    &&& old(self).update_config_error(sender@) is None
                    &&& Self::config_updated(*old(self), *final(self), owner, gov_contract)
                    &&& resp.event == Event::UpdateConfig
                    &&& resp.messages@.len() == 0
                },
                Err(e) => old(self).update_config_error(sender@) == Some(e) && *final(self) == *old(
                    self,
                ),
            },
    {
        if self.owner != *sender {
            return Err(ContractError::Unauthorized);
        }
        match owner {
            Some(o) => {
                self.owner = o;
            },
            None => {},
        }
        match gov_contract {
            Some(g) => {
                self.gov_contract = Some(g);
            },
            None => {},
        }
        Ok(Response::of(Event::UpdateConfig))
    }

    /// Why a call is refused, if it is.
    pub open spec fn execute_error(&self, sender: Seq<char>, msg: ExecuteMsg<T>) -> Option<
        ContractError,
    > {
        match msg {
            ExecuteMsg::Mint(m) => self.mint_error(sender, m.token_id@),
            ExecuteMsg::TransferNft { recipient, token_id } => self.transfer_error(sender, token_id@),
            ExecuteMsg::ExecuteDAO { token_id, msg } => self.execute_dao_error(sender, token_id@),
        }
    }

    /// Makes the call `msg` asks for, sent by `sender`: a mint, a transfer,
    /// or the forwarding of a payload.
    pub fn execute(&mut self, sender: &String, msg: ExecuteMsg<T>) -> (r: Result<Response, ContractError>)
        requires
            old(self).inv(),
        ensures
            final(self).inv(),
            match r {
                Ok(resp) => old(self).execute_error(sender@, msg) is None && match msg {
                    ExecuteMsg::Mint(m) => Self::minted(*old(self), *final(self), m) && resp.event
                        == Event::MintNft { minter: *sender, token_id: m.token_id }
                        && resp.messages@.len() == 0,
                    ExecuteMsg::TransferNft { recipient, token_id } => Self::transferred(
                        *old(self),
                        *final(self),
                        recipient,
                        token_id@,
                    ) && resp.event == Event::TransferNft {
                        from: old(self).token(token_id@)->0.owner,
                        to: recipient,
                        token_id,
                    } && resp.messages@.len() == 0,
                    ExecuteMsg::ExecuteDAO { token_id, msg } => *final(self) == *old(self)
                        && resp.event == Event::ExecuteDao { sender: *sender, token_id }
                        && resp.messages@.len() == 1 && resp.messages@[0] == Message::ReceiveNft {
                        contract: old(self).gov_contract->0,
                        sender: *sender,
                        token_id,
                        msg,
                    },
                },
                Err(e) => old(self).execute_error(sender@, msg) == Some(e) && *final(self) == *old(
                    self,
                ),
            },
    {
        match msg {
            ExecuteMsg::Mint(m) => self.mint(sender, m),
            ExecuteMsg::TransferNft { recipient, token_id } => self.transfer_nft(
                sender,
                recipient,
                token_id,
            ),
            ExecuteMsg::ExecuteDAO { token_id, msg } => self.execute_dao(sender, token_id, msg),
        }
    }
}

} // verus!
