use crowdfunding::campaign::{AccountId, Campaign};
use crowdfunding::contract::CrowdFunding;
use crowdfunding::errors::Error;

#[test]
fn increment_allocates_sequential_ids() {
    let mut ledger = CrowdFunding::new();
    assert_eq!(ledger.counter(), 0);
    assert_eq!(ledger.increment(), 1);
    assert_eq!(ledger.increment(), 2);
    assert_eq!(ledger.increment(), 3);
    assert_eq!(ledger.counter(), 3);
}

#[test]
fn create_rejects_mismatched_seed_lists() {
    let mut ledger = CrowdFunding::new();
    let r = ledger.create_campaign(AccountId(1), vec![AccountId(2)], vec![], 1000, 100);
    assert_eq!(r, Err(Error::InvalidInput));
    // The failed creation advanced nothing: no identifier, no record.
    assert_eq!(ledger.counter(), 0);
    assert!(ledger.get_campaign(1).is_none());
}

#[test]
fn create_folds_seed_contributions() {
    let mut ledger = CrowdFunding::new();
    let r = ledger.create_campaign(
        AccountId(1),
        vec![AccountId(2), AccountId(3)],
        vec![5, 7],
        1000,
        100,
    );
    assert_eq!(r, Ok(1));
    let c = ledger.get_campaign(1).unwrap();
    assert_eq!(c.creator, AccountId(1));
    assert_eq!(c.goal, 1000);
    assert_eq!(c.deadline, 100);
    assert_eq!(c.funds_raised, 12);
    assert_eq!(c.contributors, vec![AccountId(2), AccountId(3)]);
    assert_eq!(c.contributed_amount, vec![5, 7]);
    assert_eq!(c.refunded, 0);
}

#[test]
fn create_twice_with_identical_arguments_is_not_deduplicated() {
    let mut ledger = CrowdFunding::new();
    let first = ledger.create_campaign(AccountId(1), vec![], vec![], 500, 40);
    let second = ledger.create_campaign(AccountId(1), vec![], vec![], 500, 40);
    assert_eq!(first, Ok(1));
    assert_eq!(second, Ok(2));
    assert!(ledger.get_campaign(1).is_some());
    assert!(ledger.get_campaign(2).is_some());

    // The two records are independent: funding one leaves the other as it was.
    assert_eq!(ledger.contribute(AccountId(7), 30, 1, 10), Ok(()));
    assert_eq!(ledger.get_campaign(1).unwrap().funds_raised, 30);
    assert_eq!(ledger.get_campaign(2).unwrap().funds_raised, 0);
}

#[test]
fn record_invariant_is_decidable_at_run_time() {
    let good = Campaign::new(AccountId(4), vec![AccountId(5), AccountId(6)], vec![9, 2], 20, 8)
        .unwrap();
    assert!(good.is_well_formed());

    let mut unbalanced = Campaign::new(AccountId(4), vec![AccountId(5)], vec![9], 20, 8).unwrap();
    unbalanced.funds_raised = 10;
    assert!(!unbalanced.is_well_formed());

    let mut misaligned = Campaign::new(AccountId(4), vec![], vec![], 20, 8).unwrap();
    misaligned.contributors.push(AccountId(5));
    assert!(!misaligned.is_well_formed());

    let mut overrun = Campaign::new(AccountId(4), vec![AccountId(5)], vec![9], 20, 8).unwrap();
    overrun.refunded = 2;
    assert!(!overrun.is_well_formed());

    let mut overflowing = Campaign::new(AccountId(4), vec![], vec![], 20, 8).unwrap();
    overflowing.contributors.push(AccountId(5));
    overflowing.contributors.push(AccountId(6));
    overflowing.contributed_amount.push(u64::MAX);
    overflowing.contributed_amount.push(u64::MAX);
    assert!(!overflowing.is_well_formed());
}

#[test]
fn refund_due_matches_deadline_and_goal() {
    let c = Campaign::new(AccountId(4), vec![AccountId(5)], vec![9], 20, 8).unwrap();
    assert!(!c.refund_due(8)); // still open
    assert!(c.refund_due(9)); // closed, 9 raised of 20
    let met = Campaign::new(AccountId(4), vec![AccountId(5)], vec![25], 20, 8).unwrap();
    assert!(!met.refund_due(9)); // closed, but the goal was met
}

#[test]
fn campaign_record_construction() {
    let ok = Campaign::new(AccountId(4), vec![AccountId(5)], vec![9], 20, 8).unwrap();
    assert_eq!(ok.funds_raised, 9);
    assert_eq!(ok.refunded, 0);

    let bad = Campaign::new(AccountId(4), vec![], vec![9], 20, 8);
    assert!(matches!(bad, Err(Error::InvalidInput)));
}
