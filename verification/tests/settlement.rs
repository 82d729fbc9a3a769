use crowdfunding::campaign::{AccountId, Transfer};
use crowdfunding::contract::CrowdFunding;
use crowdfunding::errors::Error;

const CREATOR: AccountId = AccountId(1);
const A: AccountId = AccountId(10);
const B: AccountId = AccountId(11);

fn funded_ledger(goal: u64, deadline: u64, amounts: &[u64]) -> (CrowdFunding, u64) {
    let mut ledger = CrowdFunding::new();
    let id = ledger.create_campaign(CREATOR, vec![], vec![], goal, deadline).unwrap();
    for (i, amount) in amounts.iter().enumerate() {
        assert_eq!(ledger.contribute(AccountId(10 + i as u64), *amount, id, 0), Ok(()));
    }
    (ledger, id)
}

#[test]
fn withdraw_before_deadline_fails() {
    let (mut ledger, id) = funded_ledger(100, 50, &[200]);
    // Also at the deadline itself: the campaign is still open.
    assert_eq!(ledger.withdraw(CREATOR, id, 50), Err(Error::DeadlineNotReached));
    assert_eq!(ledger.withdraw(CREATOR, id, 0), Err(Error::DeadlineNotReached));
    assert_eq!(
        ledger.settle_withdraw(CREATOR, id, 50, true),
        Err(Error::DeadlineNotReached)
    );
    let c = ledger.get_campaign(id).unwrap();
    assert_eq!(c.funds_raised, 200);
    assert_eq!(c.contributors.len(), 1);
}

#[test]
fn withdraw_goal_not_met_fails() {
    let (mut ledger, id) = funded_ledger(1000, 50, &[200]);
    assert_eq!(ledger.withdraw(CREATOR, id, 51), Err(Error::GoalNotMet));
    assert_eq!(
        ledger.settle_withdraw(CREATOR, id, 51, true),
        Err(Error::GoalNotMet)
    );
    let c = ledger.get_campaign(id).unwrap();
    assert_eq!(c.funds_raised, 200);
}

#[test]
fn withdraw_by_anyone_but_the_creator_fails() {
    let (mut ledger, id) = funded_ledger(100, 50, &[200]);
    assert_eq!(ledger.withdraw(A, id, 51), Err(Error::Unauthorized));
    assert_eq!(ledger.settle_withdraw(A, id, 51, true), Err(Error::Unauthorized));
    assert!(ledger.get_campaign(id).is_some());
}

#[test]
fn withdraw_unknown_campaign_fails() {
    let mut ledger = CrowdFunding::new();
    assert_eq!(ledger.withdraw(CREATOR, 7, 51), Err(Error::CampaignNotFound));
    assert_eq!(ledger.contribute(A, 1, 7, 0), Err(Error::CampaignNotFound));
    assert_eq!(ledger.settle_refund(7, 51, 0), Err(Error::CampaignNotFound));
}

#[test]
fn failed_payout_transfer_keeps_the_record_for_a_retry() {
    let (mut ledger, id) = funded_ledger(100, 50, &[200]);
    assert_eq!(ledger.withdraw(CREATOR, id, 51), Ok(Transfer { to: CREATOR, amount: 200 }));
    assert_eq!(
        ledger.settle_withdraw(CREATOR, id, 51, false),
        Err(Error::TransferFailed)
    );
    // Nothing was lost: the record is intact and the retry succeeds.
    assert_eq!(ledger.get_campaign(id).unwrap().funds_raised, 200);
    assert_eq!(ledger.settle_withdraw(CREATOR, id, 51, true), Ok(()));
    assert!(ledger.get_campaign(id).is_none());
}

#[test]
fn contribute_after_deadline_fails() {
    let (mut ledger, id) = funded_ledger(100, 50, &[200]);
    assert_eq!(ledger.contribute(B, 5, id, 51), Err(Error::CampaignClosed));
    let c = ledger.get_campaign(id).unwrap();
    assert_eq!(c.funds_raised, 200);
    assert_eq!(c.contributors.len(), 1);
}

#[test]
fn refund_is_a_noop_while_open_or_after_success() {
    // Still open: nothing to refund, nothing changes.
    let (mut ledger, id) = funded_ledger(1000, 50, &[200]);
    assert_eq!(ledger.auto_refund(id, 50), Ok(vec![]));
    assert_eq!(ledger.settle_refund(id, 50, 0), Ok(()));
    assert_eq!(ledger.get_campaign(id).unwrap().funds_raised, 200);

    // Goal met: the money belongs to the creator, not to a refund sweep.
    let (mut ledger2, id2) = funded_ledger(100, 50, &[200]);
    assert_eq!(ledger2.auto_refund(id2, 51), Ok(vec![]));
    assert_eq!(ledger2.settle_refund(id2, 51, 0), Ok(()));
    assert_eq!(ledger2.get_campaign(id2).unwrap().funds_raised, 200);
}

#[test]
fn partly_failed_refund_resumes_without_double_paying() {
    let (mut ledger, id) = funded_ledger(1000, 50, &[200, 300]);
    assert_eq!(
        ledger.auto_refund(id, 51),
        Ok(vec![Transfer { to: A, amount: 200 }, Transfer { to: B, amount: 300 }])
    );

    // Only the first transfer went through before the host hit a failure.
    assert_eq!(ledger.settle_refund(id, 51, 1), Err(Error::TransferFailed));
    let c = ledger.get_campaign(id).unwrap();
    assert_eq!(c.refunded, 1);
    assert_eq!(c.funds_raised, 500);

    // The retried sweep owes only the second contributor.
    assert_eq!(ledger.auto_refund(id, 52), Ok(vec![Transfer { to: B, amount: 300 }]));
    assert_eq!(ledger.settle_refund(id, 52, 1), Ok(()));
    assert!(ledger.get_campaign(id).is_none());
}

#[test]
fn refund_of_a_campaign_without_contributions_just_settles() {
    let (mut ledger, id) = funded_ledger(1000, 50, &[]);
    assert_eq!(ledger.auto_refund(id, 51), Ok(vec![]));
    assert_eq!(ledger.settle_refund(id, 51, 0), Ok(()));
    assert!(ledger.get_campaign(id).is_none());
}
