use vstd::prelude::*;
use crate::accounting::sum_shares;
use crate::error::ContractError;
use crate::fungible::execute::execute_poll_error;
use crate::fungible::polls::end_poll_error;
use crate::fungible::staking::{locked_amount, ratio_spec, staked_balance, withdrawal};
use crate::fungible::state::{advances, Store, sum_deposits};
use crate::utils::PollStatus;

verus! {

/// The total share is the sum of the shares of all stakers.
pub proof fn law_total_share_is_sum(s: Store)
    requires
        s.inv(),
    ensures
        s.state.total_share as nat == sum_shares(s.bank.vals@),
{
}

/// The total deposit is the sum of the deposits of the polls in progress.
pub proof fn law_total_deposit_is_sum(s: Store)
    requires
        s.inv(),
    ensures
        s.state.total_deposit as nat == sum_deposits(s.polls@),
{
}

/// A withdrawal never takes more than the share less the locked share,
/// where the locked share is the locked amount in proportion of the total
/// share to the staked balance.
pub proof fn law_withdrawal_leaves_locked_share(
    pre: Store,
    balance: u128,
    sender: Seq<char>,
    amount: Option<u128>,
)
    requires
        pre.inv(),
        withdrawal(pre, balance, sender, amount) is Ok,
    ensures
        ({
            let w = withdrawal(pre, balance, sender, amount)->Ok_0;
            &&& staked_balance(pre, balance) is Some
            &&& ratio_spec(
                locked_amount(pre, sender),
                pre.state.total_share,
                staked_balance(pre, balance)->0,
            ) == Ok::<u128, ContractError>(w.locked_share)
            &&& w.share <= pre.staker(sender).share - w.locked_share
            &&& amount is None ==> w.share == pre.staker(sender).share - w.locked_share
        }),
{
}

/// A poll can be ended only at or after its end height.
pub proof fn law_ended_after_end_height(pre: Store, balance: u128, height: u64, poll_id: u64)
    requires
        pre.inv(),
        end_poll_error(pre, balance, height, poll_id) is None,
    ensures
        pre.poll(poll_id).end_height <= height,
{
}

/// A poll can be executed only after its end height and its timelock.
pub proof fn law_executed_after_timelock(pre: Store, height: u64, poll_id: u64)
    requires
        pre.inv(),
        execute_poll_error(pre, height, poll_id) is None,
    ensures
        pre.poll(poll_id).end_height + pre.config.timelock_period <= height,
{
}

/// Statuses only move forward and tallies only grow, over any number of
/// steps: what holds from one store to the next, and from that to a third,
/// holds from the first to the third.
pub proof fn law_status_moves_forward(a: Store, b: Store, c: Store)
    requires
        advances(a, b),
        advances(b, c),
    ensures
        advances(a, c),
{
}

/// A poll that has left `InProgress` never returns to it, one that has been
/// rejected or executed stays so, and one that has passed can only become
/// executed.
pub proof fn law_no_way_back(a: Store, b: Store, i: int)
    requires
        advances(a, b),
        0 <= i < a.polls@.len(),
    ensures
        a.polls@[i].status != PollStatus::InProgress ==> b.polls@[i].status
            != PollStatus::InProgress,
        a.polls@[i].status == PollStatus::Rejected ==> b.polls@[i].status == PollStatus::Rejected,
        a.polls@[i].status == PollStatus::Executed ==> b.polls@[i].status == PollStatus::Executed,
        a.polls@[i].status == PollStatus::Passed ==> b.polls@[i].status == PollStatus::Passed
            || b.polls@[i].status == PollStatus::Executed,
{
}

/// In every poll, at most one vote stands on record for a voter.
pub proof fn law_one_vote_per_voter(s: Store, poll_id: u64, r1: int, r2: int)
    requires
        s.inv(),
        1 <= poll_id <= s.polls@.len(),
        0 <= r1 < s.poll_voters@[poll_id - 1].keys@.len(),
        0 <= r2 < s.poll_voters@[poll_id - 1].keys@.len(),
        s.poll_voters@[poll_id - 1].keys@[r1]@ == s.poll_voters@[poll_id - 1].keys@[r2]@,
    ensures
        r1 == r2,
{
}

} // verus!
