use vstd::prelude::*;
use crate::account::AccountId;

verus! {

/// Notification recorded when a single conversion completes.
#[derive(Clone, Copy, PartialEq, Eq, Structural, Debug)]
pub struct SwapExecuted {
    /// The source asset of the conversion.
    pub from: AccountId,
    /// The destination asset of the conversion.
    pub to: AccountId,
    /// The quantity debited from the caller.
    pub from_amount: u128,
    /// The quantity credited to the destination entry.
    pub to_amount: u128,
}

/// Notification recorded when a batch of conversions completes in full.
#[derive(Clone, Copy, PartialEq, Eq, Structural, Debug)]
pub struct BatchSwapExecuted {
    /// The caller whose balance funded the batch.
    pub user: AccountId,
    /// The length of the submitted request sequence, zero-amount requests
    /// included, even though those contribute nothing to the total.
    pub swap_count: u32,
    /// The sum of the output amounts of the non-skipped requests.
    pub total_amount: u128,
}

} // verus!
