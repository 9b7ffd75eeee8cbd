use vstd::prelude::*;
use crate::account::AccountId;

verus! {

/// One balance entry; the identifier is its key.
#[derive(Clone, Copy, PartialEq, Eq, Structural, Debug)]
pub struct BalanceEntry {
    /// The identifier whose balance this entry records.
    pub account: AccountId,
    /// The recorded unsigned quantity.
    pub amount: u128,
}

/// The recorded balance of `account` in `entries`, if any: the latest
/// entry for the identifier wins, so writing is appending to the journal.
pub open spec fn balance_lookup(entries: Seq<BalanceEntry>, account: AccountId) -> Option<u128>
    decreases entries.len(),
{
    if entries.len() == 0 {
        None
    } else if entries.last().account == account {
        Some(entries.last().amount)
    } else {
        balance_lookup(entries.drop_last(), account)
    }
}

/// The balance ledger, kept as a journal of entries in write order. An
/// identifier with no entry holds zero; nothing is ever deleted.
pub struct Ledger {
    /// The journal of balance writes; later entries shadow earlier ones.
    pub entries: Vec<BalanceEntry>,
}

impl Ledger {
    /// The recorded balance of `account`, if it has ever been written.
    pub open spec fn spec_lookup(self, account: AccountId) -> Option<u128> {
        balance_lookup(self.entries@, account)
    }

    /// The balance of `account`: the recorded value, or zero when absent.
    pub open spec fn spec_balance(self, account: AccountId) -> u128 {
        match self.spec_lookup(account) {
            Some(v) => v,
            None => 0,
        }
    }

    /// The whole ledger as a total map from identifier to balance.
    pub open spec fn as_map(self) -> Map<AccountId, u128> {
        Map::new(|a: AccountId| true, |a: AccountId| self.spec_balance(a))
    }

    /// An empty ledger: every identifier holds zero.
    pub fn new() -> (r: Ledger)
        ensures
            forall|a: AccountId| r.spec_lookup(a) is None,
            forall|a: AccountId| r.spec_balance(a) == 0,
    {
        Ledger { entries: Vec::new() }
    }

    /// Reads the balance of `account`; absent entries read as zero.
    pub fn get(&self, account: AccountId) -> (r: u128)
        ensures
            r == self.spec_balance(account),
    {
        let n = self.entries.len();
        let mut i: usize = n;
        proof {
            assert(self.entries@.subrange(0, n as int) =~= self.entries@);
        }
        while i > 0
            invariant
                i <= n,
                n == self.entries@.len(),
                balance_lookup(self.entries@, account)
                    == balance_lookup(self.entries@.subrange(0, i as int), account),
            decreases i,
        {
            i = i - 1;
            let e = self.entries[i];
            proof {
                assert(self.entries@.subrange(0, i as int + 1).drop_last()
                    =~= self.entries@.subrange(0, i as int));
            }
            if e.account == account {
                return e.amount;
            }
        }
        0
    }

    /// An exact copy of the ledger, entry for entry.
    pub fn duplicate(&self) -> (r: Ledger)
        ensures
            r.entries@ == self.entries@,
    {
        let mut entries: Vec<BalanceEntry> = Vec::new();
        let mut i: usize = 0;
        while i < self.entries.len()
            invariant
                i <= self.entries@.len(),
                entries@ == self.entries@.subrange(0, i as int),
            decreases self.entries@.len() - i,
        {
            entries.push(self.entries[i]);
            proof {
                assert(entries@ =~= self.entries@.subrange(0, i as int + 1));
            }
            i = i + 1;
        }
        proof {
            assert(self.entries@.subrange(0, self.entries@.len() as int) =~= self.entries@);
        }
        Ledger { entries }
    }

    /// Writes the balance of `account` to `amount`; other identifiers keep
    /// their balances.
    pub fn set(&mut self, account: AccountId, amount: u128)
        ensures
            final(self).spec_balance(account) == amount,
            forall|a: AccountId|
                a != account ==> final(self).spec_balance(a) == old(self).spec_balance(a),
            final(self).as_map() == old(self).as_map().insert(account, amount),
    {
        self.entries.push(BalanceEntry { account, amount });
        proof {
            assert(self.entries@.drop_last() =~= old(self).entries@);
            assert(self.as_map() =~= old(self).as_map().insert(account, amount));
        }
    }
}

} // verus!
