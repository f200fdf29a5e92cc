//! The membership token: one token per member, minted and handed on by an
//! administrator, through which its holder speaks to the governance.

pub mod error;
pub mod execute;
pub mod msg;
pub mod state;
pub mod traits;
