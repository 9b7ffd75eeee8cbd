use vstd::prelude::*;
use crate::account::AccountId;

verus! {

/// Fixed-point scale of all rates: a stored rate of `RATE_SCALE` is a 1:1
/// exchange, and an output amount is `floor(amount * rate / RATE_SCALE)`.
pub const RATE_SCALE: u128 = 1_000_000;

/// One directional rate entry; the ordered pair `(from, to)` is its key.
#[derive(Clone, Copy, PartialEq, Eq, Structural, Debug)]
pub struct RateEntry {
    /// Source asset of the pair.
    pub from: AccountId,
    /// Destination asset of the pair.
    pub to: AccountId,
    /// Scaled conversion rate for the pair.
    pub rate: u128,
}

/// The configured rate of `(from, to)` in `entries`, if any: the latest
/// entry for the pair wins, so overwriting a pair is appending to the journal.
pub open spec fn rate_lookup(entries: Seq<RateEntry>, from: AccountId, to: AccountId) -> Option<u128>
    decreases entries.len(),
{
    if entries.len() == 0 {
        None
    } else if entries.last().from == from && entries.last().to == to {
        Some(entries.last().rate)
    } else {
        rate_lookup(entries.drop_last(), from, to)
    }
}

/// Owner-writable table of directional conversion rates, kept as a journal
/// of entries in insertion order. Pairs are directional: `(a, b)` and
/// `(b, a)` are independent. A pair with no entry converts at par.
pub struct RateTable {
    /// The journal of configured entries; later entries shadow earlier ones.
    pub entries: Vec<RateEntry>,
}

impl RateTable {
    /// The configured rate of `(from, to)`, if the pair has been set.
    pub open spec fn spec_lookup(self, from: AccountId, to: AccountId) -> Option<u128> {
        rate_lookup(self.entries@, from, to)
    }

    /// The effective rate of `(from, to)`: the configured value, or par
    /// (`RATE_SCALE`) when the pair has never been set.
    pub open spec fn spec_rate(self, from: AccountId, to: AccountId) -> u128 {
        match self.spec_lookup(from, to) {
            Some(r) => r,
            None => RATE_SCALE,
        }
    }

    /// An empty table: every pair is unset.
    pub fn new() -> (r: RateTable)
        ensures
            forall|a: AccountId, b: AccountId| r.spec_lookup(a, b) is None,
    {
        RateTable { entries: Vec::new() }
    }

    /// Reads the effective rate of `(from, to)`.
    pub fn get(&self, from: AccountId, to: AccountId) -> (r: u128)
        ensures
            r == self.spec_rate(from, to),
    {
        let n = self.entries.len();
        let mut i: usize = n;
        proof {
            assert(self.entries@.subrange(0, n as int) =~= self.entries@);
        }
        while i > 0
            invariant
                i <= n,
                n == self.entries@.len(),
                rate_lookup(self.entries@, from, to)
                    == rate_lookup(self.entries@.subrange(0, i as int), from, to),
            decreases i,
        {
            i = i - 1;
            let e = self.entries[i];
            proof {
                assert(self.entries@.subrange(0, i as int + 1).drop_last()
                    =~= self.entries@.subrange(0, i as int));
            }
            if e.from == from && e.to == to {
                return e.rate;
            }
        }
        RATE_SCALE
    }

    /// Sets the rate of `(from, to)` to `rate`, overwriting any earlier
    /// value; every value, zero included, is accepted. Other pairs keep
    /// their configuration, set or unset.
    pub fn set(&mut self, from: AccountId, to: AccountId, rate: u128)
        ensures
            final(self).spec_lookup(from, to) == Some(rate),
            final(self).spec_rate(from, to) == rate,
            forall|a: AccountId, b: AccountId|
                !(a == from && b == to)
                    ==> final(self).spec_lookup(a, b) == old(self).spec_lookup(a, b),
    {
        self.entries.push(RateEntry { from, to, rate });
        proof {
            assert(self.entries@.drop_last() =~= old(self).entries@);
        }
    }
}

} // verus!
