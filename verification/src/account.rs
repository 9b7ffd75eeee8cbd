use vstd::prelude::*;

verus! {

/// An opaque identifier. The same identifier space names both asset kinds
/// and accounts: a conversion debits the ledger entry keyed by the caller
/// and credits the entry keyed by the destination asset identifier.
#[derive(Clone, Copy, PartialEq, Eq, Structural, Hash, Debug)]
pub struct AccountId {
    pub id: u128,
}

impl AccountId {
    /// Builds an identifier from its raw value.
    pub fn new(id: u128) -> (r: AccountId)
        ensures
            r.id == id,
    {
        AccountId { id }
    }
}

} // verus!
