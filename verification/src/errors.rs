//! Error kinds shared by every ledger operation.

use vstd::prelude::*;

verus! {

/// Why a ledger operation failed.
///
/// Every precondition violation fails the whole operation with no partial
/// state change; all of these are recoverable by the caller (retry later,
/// fix the input, re-authenticate).
#[derive(Clone, Copy, PartialEq, Eq, Structural, Debug)]
pub enum Error {
    /// No campaign record exists under the given identifier.
    CampaignNotFound,
    /// The contributor and amount lists handed to creation differ in length.
    InvalidInput,
    /// A contribution arrived after the campaign's deadline.
    CampaignClosed,
    /// A withdrawal was attempted while the campaign is still open.
    DeadlineNotReached,
    /// A withdrawal was attempted on a campaign that missed its goal.
    GoalNotMet,
    /// The host's value-transfer primitive reported a failure.
    TransferFailed,
    /// The caller is not the campaign's creator.
    Unauthorized,
}

} // verus!
