//! The settlement laws, stated once over the whole ledger model and proved
//! for every input. Each combines with the operations' own contracts: the
//! exec functions pin their results to the spec functions these laws speak
//! about.

use vstd::prelude::*;

use crate::campaign::{
    lemma_sum_amounts_concat, sum_amounts, AccountId, Campaign, Transfer,
};
use crate::contract::CrowdFunding;
use crate::errors::Error;

verus! {

/// However a campaign reached its current state, its running total equals
/// the sum of all recorded contribution amounts, and the contributor and
/// amount columns have the same length. Creation establishes the invariant
/// and every accepted contribution preserves it, so it holds at every
/// observable point of a record's life.
pub proof fn lemma_ledger_balanced(c: Campaign)
    requires
        c.wf(),
    ensures
        c.funds_raised == sum_amounts(c.contributed_amount@),
        c.contributors@.len() == c.contributed_amount@.len(),
{
}

/// Over any run of accepted contributions the raised total rises by
/// exactly the sum of the accepted amounts: each accepted call appends its
/// amount to the ledger column (by `record_contribution`'s contract), and
/// appending a whole batch raises the column's sum by the batch's own
/// total.
pub proof fn lemma_contributions_accumulate(before: Seq<u64>, accepted: Seq<u64>)
    ensures
        sum_amounts(before + accepted) == sum_amounts(before) + sum_amounts(accepted),
{
    lemma_sum_amounts_concat(before, accepted);
}

/// A withdrawal by the creator before the deadline always fails with
/// `DeadlineNotReached`; by `settle_withdraw`'s contract a failed decision
/// leaves the record unchanged. (A caller other than the creator fails too,
/// with `Unauthorized` instead.)
pub proof fn lemma_withdraw_before_deadline_fails(c: Campaign, user: AccountId, now: u64)
    requires
        user == c.creator,
        now <= c.deadline,
    ensures
        c.spec_withdraw_decision(user, now) == Err::<Transfer, Error>(Error::DeadlineNotReached),
{
}

/// A withdrawal by the creator after the deadline on a campaign that missed
/// its goal always fails with `GoalNotMet`; by `settle_withdraw`'s contract
/// a failed decision leaves the record unchanged.
pub proof fn lemma_withdraw_goal_not_met_fails(c: Campaign, user: AccountId, now: u64)
    requires
        user == c.creator,
        now > c.deadline,
        c.funds_raised < c.goal,
    ensures
        c.spec_withdraw_decision(user, now) == Err::<Transfer, Error>(Error::GoalNotMet),
{
}

/// A withdrawal by the creator after the deadline on a campaign that met
/// its goal is owed exactly the whole raised total, and once the record is
/// removed — which `settle_withdraw` does exactly when the host confirms
/// this transfer — a second attempt finds no record, so it fails with
/// `CampaignNotFound`.
pub proof fn lemma_withdraw_pays_creator_once(m: Map<u64, Campaign>, id: u64, user: AccountId, now: u64)
    requires
        m.contains_key(id),
        user == m[id].creator,
        now > m[id].deadline,
        m[id].funds_raised >= m[id].goal,
    ensures
        m[id].spec_withdraw_decision(user, now) == Ok::<Transfer, Error>(
            Transfer { to: user, amount: m[id].funds_raised },
        ),
        !m.remove(id).contains_key(id),
{
}

/// A refund sweep on an untouched campaign that passed its deadline and
/// missed its goal owes every contributor exactly the recorded amount, in
/// ledger order; by `settle_refund`'s contract the record is removed
/// exactly when the host confirms all of these transfers.
pub proof fn lemma_refund_pays_each_contributor(c: Campaign, now: u64)
    requires
        c.wf(),
        c.refunded == 0,
        now > c.deadline,
        c.funds_raised < c.goal,
    ensures
        c.refund_eligible(now),
        c.pending_refunds().len() == c.contributors@.len(),
        forall|i: int|
            0 <= i < c.contributors@.len() ==> c.pending_refunds()[i] == (Transfer {
                to: c.contributors@[i],
                amount: c.contributed_amount@[i],
            }),
{
}

/// Refunding is a no-op on a campaign that is still open or that met its
/// goal: no transfer is owed, and by the contracts of `auto_refund` and
/// `settle_refund` the record is left unchanged.
pub proof fn lemma_refund_noop(c: Campaign, now: u64)
    requires
        now <= c.deadline || c.funds_raised >= c.goal,
    ensures
        !c.refund_eligible(now),
{
}

/// Creation is never deduplicated: two successive creations — `s0` to `s1`
/// to `s2`, as `create_campaign`'s contract describes them — hand out
/// distinct identifiers and leave two independent records, even when the
/// two records were built from identical arguments.
pub proof fn lemma_create_never_deduplicated(
    s0: CrowdFunding,
    s1: CrowdFunding,
    s2: CrowdFunding,
    id1: u64,
    id2: u64,
    c1: Campaign,
    c2: Campaign,
)
    requires
        s0.wf(),
        s0.spec_counter() + 2 <= u64::MAX,
        id1 == s0.spec_counter() + 1,
        s1.spec_counter() == id1,
        s1.spec_campaigns() == s0.spec_campaigns().insert(id1, c1),
        id2 == s1.spec_counter() + 1,
        s2.spec_counter() == id2,
        s2.spec_campaigns() == s1.spec_campaigns().insert(id2, c2),
    ensures
        id1 != id2,
        s2.spec_campaigns().contains_key(id1) && s2.spec_campaigns()[id1] == c1,
        s2.spec_campaigns().contains_key(id2) && s2.spec_campaigns()[id2] == c2,
{
}

} // verus!
