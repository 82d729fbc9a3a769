//! The fundraising ledger as a whole: the identifier allocator and the
//! campaign store, with the creation, contribution and settlement
//! operations that drive each record through its lifecycle.

use std::collections::HashMap;
use vstd::prelude::*;

use crate::campaign::{sum_amounts, AccountId, Campaign, Transfer};
use crate::errors::Error;

verus! {

broadcast use vstd::std_specs::hash::group_hash_axioms;

/// Tags for the host-storage entries that do not belong to a single
/// campaign record.
#[derive(Clone, Copy, Debug, PartialEq, Eq, Structural)]
pub enum DataKey {
    /// Marks the one-time initialisation entry.
    Init,
    /// Marks the custodial balance entry.
    Balance,
}

/// The whole ledger: a strictly increasing identifier counter and one
/// record per live campaign, keyed by its identifier.
///
/// A record exists in the store exactly while its campaign has not been
/// settled: settlement (payout or full refund) removes it, and the
/// allocator never hands an identifier out twice.
pub struct CrowdFunding {
    counter: u64,
    campaigns: HashMap<u64, Campaign>,
}

impl CrowdFunding {
    /// The allocator's persisted counter: the highest identifier handed
    /// out so far.
    pub closed spec fn spec_counter(self) -> u64 {
        self.counter
    }

    /// The store's contents: live campaign records by identifier.
    pub closed spec fn spec_campaigns(self) -> Map<u64, Campaign> {
        self.campaigns@
    }

    /// The ledger's invariant: every live record satisfies the campaign
    /// invariant, and every live identifier was handed out by the
    /// allocator, so the next identifier is always fresh.
    pub open spec fn wf(self) -> bool {
        forall|id: u64| #[trigger]
            self.spec_campaigns().contains_key(id) ==> self.spec_campaigns()[id].wf() && 1 <= id
                <= self.spec_counter()
    }

    /// An empty ledger: no campaigns, counter at zero.
    pub fn new() -> (r: CrowdFunding)
        ensures
            r.wf(),
            r.spec_counter() == 0,
            r.spec_campaigns() == Map::<u64, Campaign>::empty(),
    {
        CrowdFunding { counter: 0, campaigns: HashMap::new() }
    }

    /// Advances the identifier counter by exactly one and returns the new
    /// value. Every call hands out a fresh identifier; overflow of the
    /// 64-bit counter is ruled out by the precondition rather than checked
    /// here.
    pub fn increment(&mut self) -> (r: u64)
        requires
            old(self).wf(),
            old(self).spec_counter() < u64::MAX,
        ensures
            final(self).wf(),
            r == old(self).spec_counter() + 1,
            final(self).spec_counter() == r,
            final(self).spec_campaigns() == old(self).spec_campaigns(),
    {
        self.counter = self.counter + 1;
        proof {
            assert forall|id: u64| #[trigger]
                self.spec_campaigns().contains_key(id) implies self.spec_campaigns()[id].wf() && 1
                <= id <= self.spec_counter() by {
                assert(old(self).spec_campaigns().contains_key(id));
            }
        }
        self.counter
    }

    /// The current counter value, for diagnostics.
    pub fn counter(&self) -> (r: u64)
        ensures
            r == self.spec_counter(),
    {
        self.counter
    }

    /// Creates a campaign: allocates the next identifier and stores a
    /// fresh record under it. The seed lists must line up, or the call
    /// fails with `InvalidInput` and neither the counter nor the store
    /// moves; their total is folded into `funds_raised` at once. Creation
    /// is never deduplicated: equal arguments still yield a new identifier
    /// and an independent record.
    pub fn create_campaign(
        &mut self,
        creator: AccountId,
        contributors: Vec<AccountId>,
        contributed_amount: Vec<u64>,
        goal: u64,
        deadline: u64,
    ) -> (r: Result<u64, Error>)
        requires
            old(self).wf(),
            old(self).spec_counter() < u64::MAX,
            sum_amounts(contributed_amount@) <= u64::MAX,
        ensures
            final(self).wf(),
            contributors@.len() != contributed_amount@.len() ==> {
                &&& r == Err::<u64, Error>(Error::InvalidInput)
                &&& final(self).spec_counter() == old(self).spec_counter()
                &&& final(self).spec_campaigns() == old(self).spec_campaigns()
            },
            contributors@.len() == contributed_amount@.len() ==> {
                let id = (old(self).spec_counter() + 1) as u64;
                let c = Campaign::spec_new(
                    creator,
                    contributors,
                    contributed_amount,
                    goal,
                    deadline,
                )->Ok_0;
                &&& r == Ok::<u64, Error>(id)
                &&& final(self).spec_counter() == id
                &&& !old(self).spec_campaigns().contains_key(id)
                &&& final(self).spec_campaigns() == old(self).spec_campaigns().insert(id, c)
            },
    {
        if contributors.len() != contributed_amount.len() {
            return Err(Error::InvalidInput);
        }
        let id = self.increment();
        let record = match Campaign::new(creator, contributors, contributed_amount, goal, deadline) {
            Ok(record) => record,
            Err(e) => {
                return Err(e);
            },
        };
        self.campaigns.insert(id, record);
        Ok(id)
    }

    /// Records a contribution against an open campaign: the contributor
    /// and the amount are appended to the record's two ledger columns and
    /// its running total rises by exactly the amount, atomically from the
    /// caller's point of view. A missing record fails with
    /// `CampaignNotFound`; past the deadline the call fails with
    /// `CampaignClosed`. Either failure leaves the ledger unchanged.
    pub fn contribute(
        &mut self,
        from: AccountId,
        amount: u64,
        campaign_id: u64,
        now: u64,
    ) -> (r: Result<(), Error>)
        requires
            old(self).wf(),
            old(self).spec_campaigns().contains_key(campaign_id) ==> old(self).spec_campaigns()[
                campaign_id
            ].funds_raised + amount <= u64::MAX,
        ensures
            final(self).wf(),
            final(self).spec_counter() == old(self).spec_counter(),
            !old(self).spec_campaigns().contains_key(campaign_id) ==> {
                &&& r == Err::<(), Error>(Error::CampaignNotFound)
                &&& final(self).spec_campaigns() == old(self).spec_campaigns()
            },
            old(self).spec_campaigns().contains_key(campaign_id) && !old(self).spec_campaigns()[
                campaign_id
            ].is_open(now) ==> {
                &&& r == Err::<(), Error>(Error::CampaignClosed)
                &&& final(self).spec_campaigns() == old(self).spec_campaigns()
            },
            old(self).spec_campaigns().contains_key(campaign_id) && old(self).spec_campaigns()[
                campaign_id
            ].is_open(now) ==> {
                let c = old(self).spec_campaigns()[campaign_id];
                let c2 = final(self).spec_campaigns()[campaign_id];
                &&& r == Ok::<(), Error>(())
                &&& final(self).spec_campaigns() == old(self).spec_campaigns().insert(
                    campaign_id,
                    c2,
                )
                &&& c2.creator == c.creator
                &&& c2.goal == c.goal
                &&& c2.deadline == c.deadline
                &&& c2.refunded == c.refunded
                &&& c2.funds_raised == c.funds_raised + amount
                &&& c2.contributors@ == c.contributors@.push(from)
                &&& c2.contributed_amount@ == c.contributed_amount@.push(amount)
            },
    {
        match self.campaigns.remove(&campaign_id) {
            None => Err(Error::CampaignNotFound),
            Some(mut record) => {
                let outcome = record.record_contribution(from, amount, now);
                self.campaigns.insert(campaign_id, record);
                proof {
                    if outcome is Err {
                        assert(final(self).spec_campaigns() =~= old(self).spec_campaigns());
                    }
                }
                outcome
            },
        }
    }

    /// Decides a withdrawal attempt without touching the ledger: only the
    /// creator may withdraw, only after the deadline, and only if the goal
    /// was met; then the whole raised total is owed to the creator. The
    /// host performs the returned transfer and reports its outcome to
    /// [`Self::settle_withdraw`].
    pub fn withdraw(&self, user: AccountId, campaign_id: u64, now: u64) -> (r: Result<
        Transfer,
        Error,
    >)
        requires
            self.wf(),
        ensures
            !self.spec_campaigns().contains_key(campaign_id) ==> r == Err::<Transfer, Error>(
                Error::CampaignNotFound,
            ),
            self.spec_campaigns().contains_key(campaign_id) ==> r == self.spec_campaigns()[
                campaign_id
            ].spec_withdraw_decision(user, now),
    {
        match self.campaigns.get(&campaign_id) {
            None => Err(Error::CampaignNotFound),
            Some(record) => record.withdraw_decision(user, now),
        }
    }

    /// Completes a withdrawal after the host attempted the transfer that
    /// [`Self::withdraw`] returned. The decision is re-derived from the
    /// record, so the store can only ever lose a record to an eligible
    /// payout; if the transfer failed the record stays untouched and the
    /// call fails with `TransferFailed`, so a retry remains possible.
    pub fn settle_withdraw(
        &mut self,
        user: AccountId,
        campaign_id: u64,
        now: u64,
        transfer_succeeded: bool,
    ) -> (r: Result<(), Error>)
        requires
            old(self).wf(),
        ensures
            final(self).wf(),
            final(self).spec_counter() == old(self).spec_counter(),
            !old(self).spec_campaigns().contains_key(campaign_id) ==> {
                &&& r == Err::<(), Error>(Error::CampaignNotFound)
                &&& final(self).spec_campaigns() == old(self).spec_campaigns()
            },
            old(self).spec_campaigns().contains_key(campaign_id) ==> {
                let d = old(self).spec_campaigns()[campaign_id].spec_withdraw_decision(user, now);
                &&& d is Err ==> r == Err::<(), Error>(d->Err_0) && final(self).spec_campaigns()
                    == old(self).spec_campaigns()
                &&& d is Ok && !transfer_succeeded ==> r == Err::<(), Error>(Error::TransferFailed)
                    && final(self).spec_campaigns() == old(self).spec_campaigns()
                &&& d is Ok && transfer_succeeded ==> r == Ok::<(), Error>(())
                    && final(self).spec_campaigns() == old(self).spec_campaigns().remove(
                    campaign_id,
                )
            },
    {
        let decision = match self.campaigns.get(&campaign_id) {
            None => {
                return Err(Error::CampaignNotFound);
            },
            Some(record) => record.withdraw_decision(user, now),
        };
        match decision {
            Err(e) => Err(e),
            Ok(_payout) => {
                if !transfer_succeeded {
                    return Err(Error::TransferFailed);
                }
                self.campaigns.remove(&campaign_id);
                Ok(())
            },
        }
    }

    /// The refund transfers the host still has to perform for a campaign:
    /// empty unless the deadline has passed and the goal was missed
    /// (refunding is a no-op on an open or successful campaign), and
    /// otherwise one transfer per not-yet-refunded ledger entry, in ledger
    /// order, each for exactly the recorded amount. Permissionless: no
    /// caller identity is needed, since the money can only go back to the
    /// contributors. The host reports how many of the transfers succeeded
    /// to [`Self::settle_refund`].
    pub fn auto_refund(&self, campaign_id: u64, now: u64) -> (r: Result<Vec<Transfer>, Error>)
        requires
            self.wf(),
        ensures
            !self.spec_campaigns().contains_key(campaign_id) ==> r == Err::<Vec<Transfer>, Error>(
                Error::CampaignNotFound,
            ),
            self.spec_campaigns().contains_key(campaign_id) ==> {
                let c = self.spec_campaigns()[campaign_id];
                &&& r is Ok
                &&& c.refund_eligible(now) ==> r->Ok_0@ == c.pending_refunds()
                &&& !c.refund_eligible(now) ==> r->Ok_0@ == Seq::<Transfer>::empty()
            },
    {
        match self.campaigns.get(&campaign_id) {
            None => Err(Error::CampaignNotFound),
            Some(record) => {
                proof {
                    assert(self.spec_campaigns().contains_key(campaign_id));
                }
                Ok(record.refund_transfers(now))
            },
        }
    }

    /// Completes a refund sweep after the host performed a leading part of
    /// the transfers that [`Self::auto_refund`] returned. Refund progress
    /// is recorded per entry, so a sweep that failed partway can be
    /// retried later without paying anyone twice. Only when every ledger
    /// entry has been refunded is the record removed; on an open or
    /// successful campaign the call is a no-op.
    pub fn settle_refund(&mut self, campaign_id: u64, now: u64, paid: usize) -> (r: Result<
        (),
        Error,
    >)
        requires
            old(self).wf(),
            old(self).spec_campaigns().contains_key(campaign_id) ==> paid <= old(self)
                .spec_campaigns()[campaign_id].contributors@.len() - old(self).spec_campaigns()[
                campaign_id
            ].refunded,
        ensures
            final(self).wf(),
            final(self).spec_counter() == old(self).spec_counter(),
            !old(self).spec_campaigns().contains_key(campaign_id) ==> {
                &&& r == Err::<(), Error>(Error::CampaignNotFound)
                &&& final(self).spec_campaigns() == old(self).spec_campaigns()
            },
            old(self).spec_campaigns().contains_key(campaign_id) && !old(self).spec_campaigns()[
                campaign_id
            ].refund_eligible(now) ==> {
                &&& r == Ok::<(), Error>(())
                &&& final(self).spec_campaigns() == old(self).spec_campaigns()
            },
            old(self).spec_campaigns().contains_key(campaign_id) && old(self).spec_campaigns()[
                campaign_id
            ].refund_eligible(now) ==> {
                let c = old(self).spec_campaigns()[campaign_id];
                let pending = c.contributors@.len() - c.refunded;
                &&& paid == pending ==> r == Ok::<(), Error>(()) && final(self).spec_campaigns()
                    == old(self).spec_campaigns().remove(campaign_id)
                &&& paid < pending ==> {
                    let c2 = final(self).spec_campaigns()[campaign_id];
                    &&& r == Err::<(), Error>(Error::TransferFailed)
                    &&& final(self).spec_campaigns() == old(self).spec_campaigns().insert(
                        campaign_id,
                        c2,
                    )
                    &&& c2.creator == c.creator
                    &&& c2.goal == c.goal
                    &&& c2.deadline == c.deadline
                    &&& c2.funds_raised == c.funds_raised
                    &&& c2.contributors@ == c.contributors@
                    &&& c2.contributed_amount@ == c.contributed_amount@
                    &&& c2.refunded == c.refunded + paid
                }
            },
    {
        let eligible = match self.campaigns.get(&campaign_id) {
            None => {
                return Err(Error::CampaignNotFound);
            },
            Some(record) => now > record.deadline && record.funds_raised < record.goal,
        };
        if !eligible {
            return Ok(());
        }
        match self.campaigns.remove(&campaign_id) {
            None => Err(Error::CampaignNotFound),
            Some(mut record) => {
                let done = record.apply_refunds(paid);
                if done {
                    // Every contributor has been paid back: the campaign is
                    // settled and its record disappears for good.
                    Ok(())
                } else {
                    self.campaigns.insert(campaign_id, record);
                    Err(Error::TransferFailed)
                }
            },
        }
    }

    /// Looks a campaign record up by its identifier.
    pub fn get_campaign(&self, campaign_id: u64) -> (r: Option<&Campaign>)
        ensures
            match r {
                Some(c) => self.spec_campaigns().contains_key(campaign_id) && *c
                    == self.spec_campaigns()[campaign_id],
                None => !self.spec_campaigns().contains_key(campaign_id),
            },
    {
        self.campaigns.get(&campaign_id)
    }
}

} // verus!
