//! The token governance: votes weigh what the voter has staked of the
//! voting token.

pub mod contract;
pub mod execute;
pub mod laws;
pub mod msg;
pub mod polls;
pub mod query;
pub mod staking;
pub mod state;
pub mod validate;
