//! The campaign ledger: one record per campaign, and the per-record
//! decision logic of the settlement engine.

use vstd::prelude::*;

use crate::errors::Error;

verus! {

/// An account identity, as the host names accounts.
///
/// The ledger never looks inside an identity; it only compares identities
/// for equality and hands them back in transfer instructions.
#[derive(Clone, Copy, PartialEq, Eq, Structural, Debug, Hash)]
pub struct AccountId(pub u64);

/// One instruction for the host's value-transfer primitive: move `amount`
/// (in the token's smallest unit) from the contract's custodial balance to
/// the account `to`.
#[derive(Clone, Copy, PartialEq, Eq, Structural, Debug)]
pub struct Transfer {
    pub to: AccountId,
    pub amount: u64,
}

/// The mathematical sum of a sequence of contribution amounts.
pub open spec fn sum_amounts(amounts: Seq<u64>) -> int
    decreases amounts.len(),
{
    if amounts.len() == 0 {
        0
    } else {
        sum_amounts(amounts.drop_last()) + amounts.last()
    }
}

/// Appending one amount raises the sum by exactly that amount.
pub proof fn lemma_sum_amounts_push(amounts: Seq<u64>, amount: u64)
    ensures
        sum_amounts(amounts.push(amount)) == sum_amounts(amounts) + amount,
{
    assert(amounts.push(amount).drop_last() =~= amounts);
}

/// Sums add over concatenation: a batch of appended amounts raises the sum
/// by exactly the batch's own total.
pub proof fn lemma_sum_amounts_concat(a: Seq<u64>, b: Seq<u64>)
    ensures
        sum_amounts(a + b) == sum_amounts(a) + sum_amounts(b),
    decreases b.len(),
{
    if b.len() == 0 {
        assert(a + b =~= a);
    } else {
        assert((a + b).drop_last() =~= a + b.drop_last());
        lemma_sum_amounts_concat(a, b.drop_last());
    }
}

/// A sum of unsigned amounts is never negative.
pub proof fn lemma_sum_amounts_nonneg(amounts: Seq<u64>)
    ensures
        0 <= sum_amounts(amounts),
    decreases amounts.len(),
{
    if amounts.len() > 0 {
        lemma_sum_amounts_nonneg(amounts.drop_last());
    }
}

/// Every prefix sum is bounded by the sum of the whole sequence.
pub proof fn lemma_sum_amounts_take_le(amounts: Seq<u64>, i: int)
    requires
        0 <= i <= amounts.len(),
    ensures
        sum_amounts(amounts.take(i)) <= sum_amounts(amounts),
    decreases amounts.len() - i,
{
    if i < amounts.len() {
        assert(amounts.take(i + 1).drop_last() =~= amounts.take(i));
        lemma_sum_amounts_take_le(amounts, i + 1);
    } else {
        assert(amounts.take(i) =~= amounts);
    }
}

/// One campaign record, owned by the store while the campaign is live.
///
/// `contributors` and `contributed_amount` are index-aligned: the `i`-th
/// amount was contributed by the `i`-th contributor. `refunded` counts how
/// many leading entries have already been paid back by an earlier, partly
/// failed refund sweep, so a retried sweep never pays anyone twice.
#[derive(Debug)]
pub struct Campaign {
    /// Who opened the campaign; fixed at creation.
    pub creator: AccountId,
    /// The funding target, fixed at creation.
    pub goal: u64,
    /// The timestamp after which the campaign stops accepting contributions
    /// and becomes eligible for settlement; fixed at creation.
    pub deadline: u64,
    /// Running total of all recorded contributions.
    pub funds_raised: u64,
    /// The contributing accounts, in arrival order, append-only while open.
    pub contributors: Vec<AccountId>,
    /// The contributed amounts, index-aligned with `contributors`.
    pub contributed_amount: Vec<u64>,
    /// How many leading ledger entries a refund sweep has already paid.
    pub refunded: usize,
}

impl Campaign {
    /// The record's invariant: the two ledger columns line up, the running
    /// total is exactly the sum of the recorded amounts, and refund
    /// progress never runs past the ledger's end.
    pub open spec fn wf(self) -> bool {
        &&& self.contributors@.len() == self.contributed_amount@.len()
        &&& self.funds_raised as int == sum_amounts(self.contributed_amount@)
        &&& self.refunded <= self.contributors@.len()
    }

    /// A campaign is open exactly while the clock has not passed its deadline.
    pub open spec fn is_open(self, now: u64) -> bool {
        now <= self.deadline
    }

    /// The funding target has been reached.
    pub open spec fn goal_met(self) -> bool {
        self.funds_raised >= self.goal
    }

    /// Refunds are due exactly when the deadline has passed and the goal
    /// was missed.
    pub open spec fn refund_eligible(self, now: u64) -> bool {
        !self.is_open(now) && !self.goal_met()
    }

    /// What creation returns: a fresh record whose running total already
    /// folds in the seed contributions, or `InvalidInput` when the two seed
    /// lists do not line up.
    pub open spec fn spec_new(
        creator: AccountId,
        contributors: Vec<AccountId>,
        contributed_amount: Vec<u64>,
        goal: u64,
        deadline: u64,
    ) -> Result<Campaign, Error> {
        if contributors@.len() == contributed_amount@.len() {
            Ok(
                Campaign {
                    creator,
                    goal,
                    deadline,
                    funds_raised: sum_amounts(contributed_amount@) as u64,
                    contributors,
                    contributed_amount,
                    refunded: 0,
                },
            )
        } else {
            Err(Error::InvalidInput)
        }
    }

    /// The refund transfers still owed: one per ledger entry that no earlier
    /// sweep has paid yet, in ledger order, each for exactly the recorded
    /// amount.
    pub open spec fn pending_refunds(self) -> Seq<Transfer> {
        Seq::new(
            (self.contributors@.len() - self.refunded) as nat,
            |i: int|
                Transfer {
                    to: self.contributors@[self.refunded + i],
                    amount: self.contributed_amount@[self.refunded + i],
                },
        )
    }

    /// What a withdrawal attempt decides, given the caller and the clock:
    /// only the creator may withdraw, only after the deadline, and only if
    /// the goal was met; then the whole raised total is owed to the creator.
    pub open spec fn spec_withdraw_decision(self, user: AccountId, now: u64) -> Result<
        Transfer,
        Error,
    > {
        if user != self.creator {
            Err(Error::Unauthorized)
        } else if self.is_open(now) {
            Err(Error::DeadlineNotReached)
        } else if !self.goal_met() {
            Err(Error::GoalNotMet)
        } else {
            Ok(Transfer { to: self.creator, amount: self.funds_raised })
        }
    }

    /// Builds a fresh record. The seed lists must line up, or the call
    /// fails with `InvalidInput`; their total is folded into `funds_raised`
    /// at once, so the ledger invariant holds from the first observable
    /// state.
    pub fn new(
        creator: AccountId,
        contributors: Vec<AccountId>,
        contributed_amount: Vec<u64>,
        goal: u64,
        deadline: u64,
    ) -> (r: Result<Campaign, Error>)
        requires
            sum_amounts(contributed_amount@) <= u64::MAX,
        ensures
            r == Self::spec_new(creator, contributors, contributed_amount, goal, deadline),
            r matches Ok(c) ==> c.wf(),
    {
        if contributors.len() != contributed_amount.len() {
            return Err(Error::InvalidInput);
        }
        let mut total: u64 = 0;
        let mut i: usize = 0;
        while i < contributed_amount.len()
            invariant
                i <= contributed_amount@.len(),
                total as int == sum_amounts(contributed_amount@.take(i as int)),
                sum_amounts(contributed_amount@) <= u64::MAX,
            decreases contributed_amount@.len() - i,
        {
            proof {
                assert(contributed_amount@.take(i + 1).drop_last() =~= contributed_amount@.take(
                    i as int,
                ));
                lemma_sum_amounts_take_le(contributed_amount@, i + 1);
                lemma_sum_amounts_nonneg(contributed_amount@.take(i as int));
            }
            total = total + contributed_amount[i];
            i = i + 1;
        }
        proof {
            assert(contributed_amount@.take(contributed_amount@.len() as int)
                =~= contributed_amount@);
        }
        Ok(
            Campaign {
                creator,
                goal,
                deadline,
                funds_raised: total,
                contributors,
                contributed_amount,
                refunded: 0,
            },
        )
    }

    /// Appends one contribution while the campaign is open: the contributor
    /// and the amount go to the two ledger columns and the running total
    /// rises by exactly the amount, atomically from the caller's point of
    /// view. After the deadline the call fails with `CampaignClosed` and
    /// changes nothing.
    pub fn record_contribution(&mut self, from: AccountId, amount: u64, now: u64) -> (r: Result<
        (),
        Error,
    >)
        requires
            old(self).wf(),
            old(self).funds_raised + amount <= u64::MAX,
        ensures
            final(self).wf(),
            old(self).is_open(now) ==> {
                &&& r == Ok::<(), Error>(())
                &&& final(self).creator == old(self).creator
                &&& final(self).goal == old(self).goal
                &&& final(self).deadline == old(self).deadline
                &&& final(self).refunded == old(self).refunded
                &&& final(self).funds_raised == old(self).funds_raised + amount
                &&& final(self).contributors@ == old(self).contributors@.push(from)
                &&& final(self).contributed_amount@ == old(self).contributed_amount@.push(amount)
            },
            !old(self).is_open(now) ==> r == Err::<(), Error>(Error::CampaignClosed) && *final(self)
                == *old(self),
    {
        if now > self.deadline {
            return Err(Error::CampaignClosed);
        }
        proof {
            lemma_sum_amounts_push(self.contributed_amount@, amount);
        }
        self.funds_raised = self.funds_raised + amount;
        self.contributors.push(from);
        self.contributed_amount.push(amount);
        Ok(())
    }

    /// Decides a withdrawal attempt without touching the record; the host
    /// performs the returned transfer before the record may be removed.
    pub fn withdraw_decision(&self, user: AccountId, now: u64) -> (r: Result<Transfer, Error>)
        ensures
            r == self.spec_withdraw_decision(user, now),
    {
        if !(user == self.creator) {
            Err(Error::Unauthorized)
        } else if now <= self.deadline {
            Err(Error::DeadlineNotReached)
        } else if self.funds_raised < self.goal {
            Err(Error::GoalNotMet)
        } else {
            Ok(Transfer { to: self.creator, amount: self.funds_raised })
        }
    }

    /// Decides the record's invariant at run time, for callers that load
    /// records from an unverified store and must test `wf` before handing
    /// them back to the ledger operations.
    pub fn is_well_formed(&self) -> (r: bool)
        ensures
            r == self.wf(),
    {
        if self.contributors.len() != self.contributed_amount.len() {
            return false;
        }
        if self.refunded > self.contributors.len() {
            return false;
        }
        let mut total: u64 = 0;
        let mut i: usize = 0;
        while i < self.contributed_amount.len()
            invariant
                i <= self.contributed_amount@.len(),
                total as int == sum_amounts(self.contributed_amount@.take(i as int)),
            decreases self.contributed_amount@.len() - i,
        {
            proof {
                assert(self.contributed_amount@.take(i + 1).drop_last() =~= self
                    .contributed_amount@.take(i as int));
            }
            total = match total.checked_add(self.contributed_amount[i]) {
                Some(t) => t,
                None => {
                    // The amounts alone already exceed what `funds_raised`
                    // could hold, so the totals cannot balance.
                    proof {
                        lemma_sum_amounts_take_le(self.contributed_amount@, i + 1);
                    }
                    return false;
                },
            };
            i = i + 1;
        }
        proof {
            assert(self.contributed_amount@.take(self.contributed_amount@.len() as int) =~= self
                .contributed_amount@);
        }
        total == self.funds_raised
    }

    /// Whether a refund sweep is due: the deadline has passed and the goal
    /// was missed.
    pub fn refund_due(&self, now: u64) -> (r: bool)
        ensures
            r == self.refund_eligible(now),
    {
        now > self.deadline && self.funds_raised < self.goal
    }

    /// The refund transfers the host still has to perform: empty unless the
    /// deadline has passed and the goal was missed, and otherwise one
    /// transfer per not-yet-refunded ledger entry, in ledger order.
    pub fn refund_transfers(&self, now: u64) -> (r: Vec<Transfer>)
        requires
            self.wf(),
        ensures
            self.refund_eligible(now) ==> r@ == self.pending_refunds(),
            !self.refund_eligible(now) ==> r@ == Seq::<Transfer>::empty(),
    {
        let mut transfers: Vec<Transfer> = Vec::new();
        if now <= self.deadline || self.funds_raised >= self.goal {
            return transfers;
        }
        let mut i: usize = self.refunded;
        while i < self.contributors.len()
            invariant
                self.wf(),
                self.refunded <= i <= self.contributors@.len(),
                transfers@.len() == i - self.refunded,
                forall|j: int|
                    0 <= j < transfers@.len() ==> transfers@[j] == self.pending_refunds()[j],
            decreases self.contributors@.len() - i,
        {
            transfers.push(
                Transfer { to: self.contributors[i], amount: self.contributed_amount[i] },
            );
            i = i + 1;
        }
        proof {
            assert(transfers@ =~= self.pending_refunds());
        }
        transfers
    }

    /// Records that a refund sweep has just paid the next `paid` pending
    /// entries, so a later sweep resumes after them. Returns whether every
    /// ledger entry has now been refunded.
    pub fn apply_refunds(&mut self, paid: usize) -> (r: bool)
        requires
            old(self).wf(),
            paid <= old(self).contributors@.len() - old(self).refunded,
        ensures
            final(self).wf(),
            final(self).refunded == old(self).refunded + paid,
            final(self).creator == old(self).creator,
            final(self).goal == old(self).goal,
            final(self).deadline == old(self).deadline,
            final(self).funds_raised == old(self).funds_raised,
            final(self).contributors == old(self).contributors,
            final(self).contributed_amount == old(self).contributed_amount,
            r == (final(self).refunded == final(self).contributors@.len()),
    {
        let n: usize = self.contributors.len();
        self.refunded = self.refunded + paid;
        self.refunded == n
    }
}

} // verus!
