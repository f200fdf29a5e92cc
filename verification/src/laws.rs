use vstd::prelude::*;
use crate::accounting::{lemma_live_has_lock, sum_shares};
use crate::bank::{burn_error, burned, locked_weight, minted};
use crate::delegation::{delegate_error, delegated};
use crate::execute::end_poll_error;
use crate::math::{isqrt_spec, lemma_isqrt_bound, lemma_isqrt_is};
use crate::state::{advances, Store, TokenManager};
use crate::utils::{PollStatus, VoteOption};
use crate::voting::cast_vote_error;

verus! {

/// Sum of the integer square roots of the balances of a list of bank entries.
pub open spec fn sum_isqrt(vals: Seq<TokenManager>) -> nat
    decreases vals.len(),
{
    if vals.len() == 0 {
        0
    } else {
        sum_isqrt(vals.drop_last()) + isqrt_spec(vals.last().balance as nat)
    }
}

/// Every member's share is the integer square root of the member's balance.
pub proof fn law_share_is_isqrt(s: Store, key: Seq<char>)
    requires
        s.inv(),
    ensures
        s.member(key).share as nat == isqrt_spec(s.member(key).balance as nat),
{
    if !s.bank.has(key) {
        assert(0nat * 0nat <= 0 < (0nat + 1) * (0nat + 1)) by (nonlinear_arith);
        lemma_isqrt_is(0, 0);
    }
}

proof fn lemma_sum_isqrt(vals: Seq<TokenManager>)
    requires
        forall|i: int|
            0 <= i < vals.len() ==> (#[trigger] vals[i]).share as nat == isqrt_spec(
                vals[i].balance as nat,
            ),
    ensures
        sum_shares(vals) == sum_isqrt(vals),
    decreases vals.len(),
{
    if vals.len() > 0 {
        lemma_sum_isqrt(vals.drop_last());
    }
}

/// The total share is the sum, over all members, of the integer square root
/// of the balance.
pub proof fn law_total_share_is_sum(s: Store)
    requires
        s.inv(),
    ensures
        s.state.total_share as nat == sum_isqrt(s.bank.vals@),
        s.state.total_share as nat == sum_shares(s.bank.vals@),
{
    lemma_sum_isqrt(s.bank.vals@);
}

/// A poll can be ended only at or after its end height.
pub proof fn law_ended_after_end_height(pre: Store, height: u64, poll_id: u64)
    requires
        pre.inv(),
        end_poll_error(pre, height, poll_id) is None,
    ensures
        pre.poll(poll_id).end_height <= height,
{
}

/// Statuses only move forward, over any number of steps: what holds from one
/// store to the next, and from that to a third, holds from the first to the
/// third.
pub proof fn law_status_moves_forward(a: Store, b: Store, c: Store)
    requires
        advances(a, b),
        advances(b, c),
    ensures
        advances(a, c),
{
}

/// A poll that has left `InProgress` never returns to it, and one that has
/// been rejected or executed stays so.
pub proof fn law_no_way_back(a: Store, b: Store, i: int)
    requires
        advances(a, b),
        0 <= i < a.polls@.len(),
    ensures
        a.polls@[i].status != PollStatus::InProgress ==> b.polls@[i].status
            != PollStatus::InProgress,
        a.polls@[i].status == PollStatus::Rejected ==> b.polls@[i].status == PollStatus::Rejected,
        a.polls@[i].status == PollStatus::Executed ==> b.polls@[i].status == PollStatus::Executed,
        a.polls@[i].status == PollStatus::Passed ==> b.polls@[i].status == PollStatus::Passed
            || b.polls@[i].status == PollStatus::Executed,
{
}

/// Right after a delegation, the one who delegated has no vote on record in
/// any poll in progress.
pub proof fn law_delegation_leaves_no_vote(
    pre: Store,
    post: Store,
    voter: Seq<char>,
    delegator: Seq<char>,
    poll_id: u64,
)
    requires
        pre.inv(),
        delegate_error(pre, voter) is None,
        delegated(pre, post, voter, delegator),
        post.in_progress(poll_id),
    ensures
        post.voter(poll_id, voter) is None,
{
    if post.voter(poll_id, voter) is Some {
        lemma_live_has_lock(pre.polls@, pre.member(voter).locked_share, poll_id);
    }
}

/// Who has delegated cannot vote.
pub proof fn law_delegated_cannot_vote(
    pre: Store,
    height: u64,
    voter: Seq<char>,
    poll_id: u64,
    vote: VoteOption,
)
    requires
        pre.member(voter).delegate_to is Some,
    ensures
        cast_vote_error(pre, height, voter, poll_id, vote) is Some,
{
}

/// In every poll, at most one vote stands on record for a voter.
pub proof fn law_one_vote_per_voter(s: Store, poll_id: u64, r1: int, r2: int)
    requires
        s.inv(),
        1 <= poll_id <= s.polls@.len(),
        0 <= r1 < s.poll_voters@[poll_id - 1].keys@.len(),
        0 <= r2 < s.poll_voters@[poll_id - 1].keys@.len(),
        s.poll_voters@[poll_id - 1].keys@[r1]@ == s.poll_voters@[poll_id - 1].keys@[r2]@,
    ensures
        r1 == r2,
{
}

/// A mint, immediately followed by a burn of the same amount from the same
/// member, is in order and restores the store, provided the member held no
/// lock: every member, the total share, the polls and the votes on record
/// are as before.
pub proof fn law_mint_then_burn_restores(
    pre: Store,
    mid: Store,
    post: Store,
    key: Seq<char>,
    amount: u128,
)
    requires
        pre.inv(),
        pre.member(key).locked_share.len() == 0,
        pre.member(key).balance + amount <= u128::MAX,
        minted(pre, mid, key, amount),
        burned(mid, post, key, amount),
    ensures
        burn_error(mid, key, amount) is None,
        forall|k: Seq<char>| #[trigger] post.member(k) == pre.member(k),
        post.state == pre.state,
        post.config == pre.config,
        post.polls == pre.polls,
        forall|q: u64, k: Seq<char>| #[trigger] post.voter(q, k) == pre.voter(q, k),
{
    law_share_is_isqrt(pre, key);
    lemma_isqrt_bound((pre.member(key).balance + amount) as nat);
    assert(locked_weight(mid, key) == 0);
    assert(post.member(key).locked_share =~= pre.member(key).locked_share);
}

} // verus!
