use vstd::prelude::*;
use crate::error::StdError;

verus! {

/// Every way a call to the membership token can be refused.
#[derive(Clone, Copy, Debug, PartialEq, Eq, Structural)]
pub enum ContractError {
    Std(StdError),
    Unauthorized,
    InvalidExecute,
    Claimed,
    Expired,
}

} // verus!
