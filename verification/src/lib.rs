//! Governance for a DAO, in two engines over one way of keeping shares.
//!
//! The membership governance (modules `contract`, `execute`, `voting`,
//! `delegation`, `bank`, `query`) gives every member a vote that weighs the
//! integer square root of the member's balance, lets members hand their vote
//! to a delegate, and lets them take a vote back. The token governance
//! (module `fungible`) weighs votes by staked tokens, takes a deposit with
//! every proposal, snapshots the weight a poll is measured against, and
//! sends off the messages of a poll that has passed once its timelock has
//! run out. The membership token (module `cw721`) forwards the payloads of
//! its holders to the membership governance.
//!
//! Every engine keeps its whole state in one `Store`. A call takes the store
//! and plain values, changes the store, and answers with a `Response` that
//! says what happened and what the host is to do; a call that is refused
//! leaves the store as it was. What holds of every store is its `inv`;
//! what holds across calls is stated in the modules `laws`.

pub mod accounting;
pub mod attributes;
pub mod bank;
pub mod contract;
pub mod cw721;
pub mod decimal;
pub mod delegation;
pub mod error;
pub mod execute;
pub mod fungible;
pub mod keys;
pub mod laws;
pub mod math;
pub mod msg;
pub mod query;
pub mod response;
pub mod scan;
pub mod state;
pub mod table;
pub mod utils;
pub mod validate;
pub mod voting;
