use vstd::prelude::*;
use crate::account::AccountId;
use crate::errors::Error;
use crate::events::BatchSwapExecuted;
use crate::events::SwapExecuted;
use crate::ledger::Ledger;
use crate::rates::RateTable;
use crate::rates::RATE_SCALE;

verus! {

/// Fixed-point conversion output: `floor(amount * rate / RATE_SCALE)`.
/// Division truncates; a fractional remainder is discarded, never rounded up.
pub open spec fn spec_output(amount: u128, rate: u128) -> int {
    amount * rate / (RATE_SCALE as int)
}

/// Balances after one accepted conversion: the caller is debited the source
/// amount, then the entry keyed by the destination asset is credited `out`.
/// Chaining the two inserts makes the credit read the debited value whenever
/// the destination identifier is the caller itself.
pub open spec fn spec_swap_applied(
    balances: Map<AccountId, u128>,
    caller: AccountId,
    to_token: AccountId,
    amount: u128,
    out: u128,
) -> Map<AccountId, u128> {
    let debited = balances.insert(caller, (balances[caller] - amount) as u128);
    debited.insert(to_token, (debited[to_token] + out) as u128)
}

/// Outcome of a batch of conversion requests processed strictly in order
/// against the running balances: the balances when processing stops, the
/// accumulated output total of the requests performed, and whether every
/// request passed its sufficiency check. A request with a zero source
/// amount is skipped; a failing request stops processing at once, keeping
/// the mutations of the earlier requests (partial commit).
pub open spec fn spec_batch(
    rates: RateTable,
    balances: Map<AccountId, u128>,
    caller: AccountId,
    swaps: Seq<(AccountId, AccountId, u128)>,
) -> (Map<AccountId, u128>, int, bool)
    decreases swaps.len(),
{
    if swaps.len() == 0 {
        (balances, 0, true)
    } else {
        let from_token = swaps[0].0;
        let to_token = swaps[0].1;
        let amount = swaps[0].2;
        let rest = swaps.subrange(1, swaps.len() as int);
        if amount == 0 {
            spec_batch(rates, balances, caller, rest)
        } else if balances[caller] < amount {
            (balances, 0, false)
        } else {
            let out = spec_output(amount, rates.spec_rate(from_token, to_token));
            let stepped = spec_swap_applied(balances, caller, to_token, amount, out as u128);
            let tail = spec_batch(rates, stepped, caller, rest);
            (tail.0, out + tail.1, tail.2)
        }
    }
}

/// Every intermediate quantity of the batch fits in its machine word: each
/// request's product `amount * rate`, each credit, and the running total
/// starting from `acc`. Quantities past a failing sufficiency check are not
/// computed and so are not constrained.
pub open spec fn spec_batch_fits(
    rates: RateTable,
    balances: Map<AccountId, u128>,
    caller: AccountId,
    swaps: Seq<(AccountId, AccountId, u128)>,
    acc: int,
) -> bool
    decreases swaps.len(),
{
    if swaps.len() == 0 {
        true
    } else {
        let from_token = swaps[0].0;
        let to_token = swaps[0].1;
        let amount = swaps[0].2;
        let rest = swaps.subrange(1, swaps.len() as int);
        if amount == 0 {
            spec_batch_fits(rates, balances, caller, rest, acc)
        } else {
            amount * rates.spec_rate(from_token, to_token) <= u128::MAX
                && (balances[caller] >= amount ==> {
                    let out = spec_output(amount, rates.spec_rate(from_token, to_token));
                    let debited = balances.insert(caller, (balances[caller] - amount) as u128);
                    let stepped = spec_swap_applied(balances, caller, to_token, amount, out as u128);
                    debited[to_token] + out <= u128::MAX
                        && acc + out <= u128::MAX
                        && spec_batch_fits(rates, stepped, caller, rest, acc + out)
                })
        }
    }
}

/// The accounting engine: a rate table written only by the owner, the
/// balance ledger, and the logs of completed-operation notifications.
pub struct StablecoinSwap {
    /// The single privileged identity allowed to configure rates; set at
    /// construction and immutable afterwards.
    pub owner: AccountId,
    /// Directional conversion rates for asset pairs.
    pub exchange_rates: RateTable,
    /// Balances keyed by identifier.
    pub token_balances: Ledger,
    /// Notifications of completed single conversions, in order.
    pub swap_events: Vec<SwapExecuted>,
    /// Notifications of fully completed batches, in order.
    pub batch_events: Vec<BatchSwapExecuted>,
}

impl StablecoinSwap {
    /// The owner identity.
    pub open spec fn spec_owner(self) -> AccountId {
        self.owner
    }

    /// The effective rate of `(from, to)`: configured value or par.
    pub open spec fn spec_rate(self, from: AccountId, to: AccountId) -> u128 {
        self.exchange_rates.spec_rate(from, to)
    }

    /// The balance of `account`; zero when never written.
    pub open spec fn spec_balance(self, account: AccountId) -> u128 {
        self.token_balances.spec_balance(account)
    }

    /// All balances, as a total map from identifier to quantity.
    pub open spec fn balances(self) -> Map<AccountId, u128> {
        Map::new(|a: AccountId| true, |a: AccountId| self.spec_balance(a))
    }

    /// Creates the engine with `creator` as its owner, every pair unset
    /// (so converting at par), every balance zero, and empty logs.
    pub fn new(creator: AccountId) -> (r: StablecoinSwap)
        ensures
            r.spec_owner() == creator,
            forall|a: AccountId, b: AccountId| r.exchange_rates.spec_lookup(a, b) is None,
            forall|a: AccountId, b: AccountId| r.spec_rate(a, b) == RATE_SCALE,
            forall|a: AccountId| r.spec_balance(a) == 0,
            r.swap_events@ == Seq::<SwapExecuted>::empty(),
            r.batch_events@ == Seq::<BatchSwapExecuted>::empty(),
    {
        StablecoinSwap {
            owner: creator,
            exchange_rates: RateTable::new(),
            token_balances: Ledger::new(),
            swap_events: Vec::new(),
            batch_events: Vec::new(),
        }
    }

    /// Returns the owner identity.
    pub fn owner(&self) -> (r: AccountId)
        ensures
            r == self.spec_owner(),
    {
        self.owner
    }

    /// Succeeds exactly when `caller` is the owner; refuses anyone else.
    fn ensure_owner(&self, caller: AccountId) -> (r: Result<(), Error>)
        ensures
            r == (if caller == self.spec_owner() {
                Ok::<(), Error>(())
            } else {
                Err::<(), Error>(Error::NotOwner)
            }),
    {
        if caller != self.owner {
            return Err(Error::NotOwner);
        }
        Ok(())
    }

    /// Sets the rate of `(from_token, to_token)` to `rate` when `caller` is
    /// the owner; no validation is performed on the value. Any other caller
    /// is refused with `NotOwner` and nothing changes.
    pub fn set_exchange_rate(
        &mut self,
        caller: AccountId,
        from_token: AccountId,
        to_token: AccountId,
        rate: u128,
    ) -> (r: Result<(), Error>)
        ensures
            final(self).owner == old(self).owner,
            final(self).token_balances == old(self).token_balances,
            forall|w: AccountId| final(self).spec_balance(w) == old(self).spec_balance(w),
            final(self).swap_events@ == old(self).swap_events@,
            final(self).batch_events@ == old(self).batch_events@,
            caller != old(self).spec_owner() ==> {
                &&& r == Err::<(), Error>(Error::NotOwner)
                &&& *final(self) == *old(self)
            },
            caller == old(self).spec_owner() ==> {
                &&& r == Ok::<(), Error>(())
                &&& final(self).exchange_rates.spec_lookup(from_token, to_token) == Some(rate)
                &&& final(self).spec_rate(from_token, to_token) == rate
                &&& forall|a: AccountId, b: AccountId|
                    !(a == from_token && b == to_token)
                        ==> final(self).exchange_rates.spec_lookup(a, b)
                            == old(self).exchange_rates.spec_lookup(a, b)
            },
    {
        match self.ensure_owner(caller) {
            Err(e) => Err(e),
            Ok(()) => {
                self.exchange_rates.set(from_token, to_token, rate);
                Ok(())
            },
        }
    }

    /// Reads the effective rate of `(from_token, to_token)`; an unset pair
    /// reads as par (`RATE_SCALE`). Callable by anyone, never fails.
    pub fn get_exchange_rate(&self, from_token: AccountId, to_token: AccountId) -> (r: u128)
        ensures
            r == self.spec_rate(from_token, to_token),
    {
        self.exchange_rates.get(from_token, to_token)
    }

    /// Converts `from_amount` of `from_token` into `to_token` against the
    /// caller's balance. A zero amount is refused with `ZeroAmount` and a
    /// short balance with `InsufficientBalance`, both without mutation;
    /// otherwise the caller is debited `from_amount`, the entry keyed by
    /// `to_token` is credited the truncated output, a notification is
    /// logged, and the output is returned. Inputs whose product or credit
    /// overflows the 128-bit word are refused outright by precondition;
    /// `swap_fits` decides it.
    pub fn execute_swap(
        &mut self,
        caller: AccountId,
        from_token: AccountId,
        to_token: AccountId,
        from_amount: u128,
    ) -> (r: Result<u128, Error>)
        requires
            from_amount != 0
                ==> from_amount * old(self).spec_rate(from_token, to_token) <= u128::MAX,
            (from_amount != 0 && old(self).spec_balance(caller) >= from_amount) ==> {
                let debited = old(self).balances().insert(
                    caller,
                    (old(self).spec_balance(caller) - from_amount) as u128,
                );
                debited[to_token] + spec_output(from_amount, old(self).spec_rate(from_token, to_token))
                    <= u128::MAX
            },
        ensures
            final(self).owner == old(self).owner,
            final(self).exchange_rates == old(self).exchange_rates,
            forall|x: AccountId, y: AccountId|
                final(self).spec_rate(x, y) == old(self).spec_rate(x, y),
            final(self).batch_events@ == old(self).batch_events@,
            (r == Err::<u128, Error>(Error::ZeroAmount)) <==> from_amount == 0,
            (r == Err::<u128, Error>(Error::InsufficientBalance))
                <==> (from_amount != 0 && old(self).spec_balance(caller) < from_amount),
            r is Err ==> *final(self) == *old(self),
            r is Ok <==> (from_amount != 0 && old(self).spec_balance(caller) >= from_amount),
            r is Ok ==> {
                let out = spec_output(from_amount, old(self).spec_rate(from_token, to_token));
                &&& r == Ok::<u128, Error>(out as u128)
                &&& final(self).balances() == spec_swap_applied(
                    old(self).balances(),
                    caller,
                    to_token,
                    from_amount,
                    out as u128,
                )
                &&& forall|w: AccountId|
                    final(self).spec_balance(w) == spec_swap_applied(
                        old(self).balances(),
                        caller,
                        to_token,
                        from_amount,
                        out as u128,
                    )[w]
                &&& final(self).swap_events@ == old(self).swap_events@.push(
                    (SwapExecuted {
                        from: from_token,
                        to: to_token,
                        from_amount: from_amount,
                        to_amount: out as u128,
                    }),
                )
            },
    {
        if from_amount == 0 {
            return Err(Error::ZeroAmount);
        }

        let rate = self.exchange_rates.get(from_token, to_token);
        let to_amount = (from_amount * rate) / RATE_SCALE;

        let user_balance = self.token_balances.get(caller);
        if user_balance < from_amount {
            return Err(Error::InsufficientBalance);
        }

        self.token_balances.set(caller, user_balance - from_amount);

        let to_balance = self.token_balances.get(to_token);
        self.token_balances.set(to_token, to_balance + to_amount);

        self.swap_events.push(SwapExecuted {
            from: from_token,
            to: to_token,
            from_amount,
            to_amount,
        });

        proof {
            assert(self.balances() =~= spec_swap_applied(
                old(self).balances(),
                caller,
                to_token,
                from_amount,
                to_amount,
            ));
        }
        Ok(to_amount)
    }

    /// Processes `swaps` strictly in order against the caller's running
    /// balance. Zero-amount requests are silently skipped; the first request
    /// that fails its sufficiency check fails the whole call with
    /// `InsufficientBalance`, keeping the mutations of the earlier requests
    /// (partial commit, as `spec_batch` states). On full success the output
    /// total is returned and one notification is logged whose count is the
    /// length of the request sequence, skipped requests included. Request
    /// sequences whose intermediate quantities overflow the 128-bit word
    /// are refused outright by precondition; `batch_fits` decides it.
    pub fn execute_batch_swap(
        &mut self,
        caller: AccountId,
        swaps: Vec<(AccountId, AccountId, u128)>,
    ) -> (r: Result<u128, Error>)
        requires
            spec_batch_fits(old(self).exchange_rates, old(self).balances(), caller, swaps@, 0),
            swaps@.len() <= u32::MAX,
        ensures
            final(self).owner == old(self).owner,
            final(self).exchange_rates == old(self).exchange_rates,
            forall|x: AccountId, y: AccountId|
                final(self).spec_rate(x, y) == old(self).spec_rate(x, y),
            final(self).swap_events@ == old(self).swap_events@,
            final(self).balances() == spec_batch(
                old(self).exchange_rates,
                old(self).balances(),
                caller,
                swaps@,
            ).0,
            forall|w: AccountId|
                final(self).spec_balance(w) == spec_batch(
                    old(self).exchange_rates,
                    old(self).balances(),
                    caller,
                    swaps@,
                ).0[w],
            r is Ok <==> spec_batch(
                old(self).exchange_rates,
                old(self).balances(),
                caller,
                swaps@,
            ).2,
            r is Ok ==> {
                let total = spec_batch(
                    old(self).exchange_rates,
                    old(self).balances(),
                    caller,
                    swaps@,
                ).1;
                &&& r == Ok::<u128, Error>(total as u128)
                &&& 0 <= total <= u128::MAX
                &&& final(self).batch_events@ == old(self).batch_events@.push(
                    (BatchSwapExecuted {
                        user: caller,
                        swap_count: swaps@.len() as u32,
                        total_amount: total as u128,
                    }),
                )
            },
            r is Err ==> {
                &&& r == Err::<u128, Error>(Error::InsufficientBalance)
                &&& final(self).batch_events@ == old(self).batch_events@
            },
    {
        let n = swaps.len();
        let mut total: u128 = 0;
        let mut i: usize = 0;
        proof {
            assert(swaps@.subrange(0, n as int) =~= swaps@);
        }
        while i < n
            invariant
                i <= n,
                n == swaps@.len(),
                self.owner == old(self).owner,
                self.exchange_rates == old(self).exchange_rates,
                self.swap_events@ == old(self).swap_events@,
                self.batch_events@ == old(self).batch_events@,
                spec_batch_fits(
                    old(self).exchange_rates,
                    self.balances(),
                    caller,
                    swaps@.subrange(i as int, n as int),
                    total as int,
                ),
                ({
                    let full = spec_batch(
                        old(self).exchange_rates,
                        old(self).balances(),
                        caller,
                        swaps@,
                    );
                    let part = spec_batch(
                        old(self).exchange_rates,
                        self.balances(),
                        caller,
                        swaps@.subrange(i as int, n as int),
                    );
                    full.0 == part.0 && full.2 == part.2 && full.1 == total + part.1
                }),
            decreases n - i,
        {
            proof {
                let sub = swaps@.subrange(i as int, n as int);
                assert(sub[0] == swaps@[i as int]);
                assert(sub.subrange(1, sub.len() as int)
                    =~= swaps@.subrange(i as int + 1, n as int));
            }
            let entry = swaps[i];
            let from_token = entry.0;
            let to_token = entry.1;
            let from_amount = entry.2;
            if from_amount != 0 {
                let ghost pre = self.balances();
                let rate = self.exchange_rates.get(from_token, to_token);
                let to_amount = (from_amount * rate) / RATE_SCALE;

                let user_balance = self.token_balances.get(caller);
                if user_balance < from_amount {
                    return Err(Error::InsufficientBalance);
                }

                self.token_balances.set(caller, user_balance - from_amount);
                let to_balance = self.token_balances.get(to_token);
                self.token_balances.set(to_token, to_balance + to_amount);

                proof {
                    assert(self.balances() =~= spec_swap_applied(
                        pre,
                        caller,
                        to_token,
                        from_amount,
                        to_amount,
                    ));
                }
                total = total + to_amount;
            }
            i = i + 1;
        }
        proof {
            assert(swaps@.subrange(n as int, n as int)
                =~= Seq::<(AccountId, AccountId, u128)>::empty());
        }
        self.batch_events.push(BatchSwapExecuted {
            user: caller,
            swap_count: n as u32,
            total_amount: total,
        });
        Ok(total)
    }

    /// Whether a single conversion's intermediate quantities fit in the
    /// machine word: the product `from_amount * rate` and, when the
    /// sufficiency check would pass, the destination credit. This decides
    /// exactly what `execute_swap` requires, so an unverified caller can
    /// test it before converting.
    pub fn swap_fits(
        &self,
        caller: AccountId,
        from_token: AccountId,
        to_token: AccountId,
        from_amount: u128,
    ) -> (r: bool)
        ensures
            r == ({
                &&& from_amount != 0
                    ==> from_amount * self.spec_rate(from_token, to_token) <= u128::MAX
                &&& (from_amount != 0 && self.spec_balance(caller) >= from_amount) ==> {
                    let debited = self.balances().insert(
                        caller,
                        (self.spec_balance(caller) - from_amount) as u128,
                    );
                    debited[to_token] + spec_output(from_amount, self.spec_rate(from_token, to_token))
                        <= u128::MAX
                }
            }),
    {
        if from_amount == 0 {
            return true;
        }
        let rate = self.exchange_rates.get(from_token, to_token);
        match from_amount.checked_mul(rate) {
            None => false,
            Some(product) => {
                let out = product / RATE_SCALE;
                let balance = self.token_balances.get(caller);
                if balance < from_amount {
                    true
                } else {
                    let debited = if to_token == caller {
                        balance - from_amount
                    } else {
                        self.token_balances.get(to_token)
                    };
                    debited.checked_add(out).is_some()
                }
            },
        }
    }

    /// Whether every intermediate quantity of a batch fits in its machine
    /// word, found by walking the requests over a scratch copy of the
    /// ledger exactly as `execute_batch_swap` would walk them. This decides
    /// exactly what `execute_batch_swap` requires, so an unverified caller
    /// can test it before converting.
    pub fn batch_fits(
        &self,
        caller: AccountId,
        swaps: &Vec<(AccountId, AccountId, u128)>,
    ) -> (r: bool)
        ensures
            r == (swaps@.len() <= u32::MAX
                && spec_batch_fits(self.exchange_rates, self.balances(), caller, swaps@, 0)),
    {
        let n = swaps.len();
        if n > u32::MAX as usize {
            return false;
        }
        let mut scratch = self.token_balances.duplicate();
        let mut total: u128 = 0;
        let mut i: usize = 0;
        proof {
            assert(swaps@.subrange(0, n as int) =~= swaps@);
            assert(scratch.as_map() =~= self.balances());
        }
        while i < n
            invariant
                i <= n,
                n == swaps@.len(),
                n <= u32::MAX,
                spec_batch_fits(self.exchange_rates, self.balances(), caller, swaps@, 0)
                    <==> spec_batch_fits(
                        self.exchange_rates,
                        scratch.as_map(),
                        caller,
                        swaps@.subrange(i as int, n as int),
                        total as int,
                    ),
            decreases n - i,
        {
            proof {
                let sub = swaps@.subrange(i as int, n as int);
                assert(sub[0] == swaps@[i as int]);
                assert(sub.subrange(1, sub.len() as int)
                    =~= swaps@.subrange(i as int + 1, n as int));
            }
            let entry = swaps[i];
            let from_token = entry.0;
            let to_token = entry.1;
            let from_amount = entry.2;
            if from_amount != 0 {
                let rate = self.exchange_rates.get(from_token, to_token);
                let product = match from_amount.checked_mul(rate) {
                    None => {
                        return false;
                    },
                    Some(p) => p,
                };
                let out = product / RATE_SCALE;
                let balance = scratch.get(caller);
                if balance < from_amount {
                    return true;
                }
                let ghost pre = scratch.as_map();
                scratch.set(caller, balance - from_amount);
                let to_balance = scratch.get(to_token);
                let credited = match to_balance.checked_add(out) {
                    None => {
                        return false;
                    },
                    Some(c) => c,
                };
                let new_total = match total.checked_add(out) {
                    None => {
                        return false;
                    },
                    Some(t) => t,
                };
                scratch.set(to_token, credited);
                proof {
                    assert(scratch.as_map() =~= spec_swap_applied(
                        pre,
                        caller,
                        to_token,
                        from_amount,
                        out,
                    ));
                }
                total = new_total;
            }
            i = i + 1;
        }
        proof {
            assert(swaps@.subrange(n as int, n as int)
                =~= Seq::<(AccountId, AccountId, u128)>::empty());
        }
        true
    }

    /// Reads the balance of `account`; absent entries read as zero.
    pub fn get_token_balance(&self, account: AccountId) -> (r: u128)
        ensures
            r == self.spec_balance(account),
    {
        self.token_balances.get(account)
    }

    /// Credits `amount` to the caller's own balance. No access restriction
    /// and no zero check: this seeds balances for exercising the engine and
    /// stands in for a funding mechanism outside this core. A credit that
    /// would overflow the 128-bit word is refused outright by precondition.
    pub fn deposit_tokens(&mut self, caller: AccountId, amount: u128) -> (r: Result<(), Error>)
        requires
            old(self).spec_balance(caller) + amount <= u128::MAX,
        ensures
            r == Ok::<(), Error>(()),
            final(self).spec_balance(caller) == old(self).spec_balance(caller) + amount,
            forall|a: AccountId|
                a != caller ==> final(self).spec_balance(a) == old(self).spec_balance(a),
            final(self).balances() == old(self).balances().insert(
                caller,
                (old(self).spec_balance(caller) + amount) as u128,
            ),
            final(self).owner == old(self).owner,
            final(self).exchange_rates == old(self).exchange_rates,
            forall|x: AccountId, y: AccountId|
                final(self).spec_rate(x, y) == old(self).spec_rate(x, y),
            final(self).swap_events@ == old(self).swap_events@,
            final(self).batch_events@ == old(self).batch_events@,
    {
        let current = self.token_balances.get(caller);
        self.token_balances.set(caller, current + amount);
        proof {
            assert(self.balances() =~= old(self).balances().insert(
                caller,
                (old(self).spec_balance(caller) + amount) as u128,
            ));
        }
        Ok(())
    }
}

} // verus!
