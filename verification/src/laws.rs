use vstd::prelude::*;
use crate::account::AccountId;
use crate::rates::RateTable;
use crate::rates::RATE_SCALE;
use crate::swap::spec_batch;
use crate::swap::spec_output;
use crate::swap::spec_swap_applied;

verus! {

/// A pair that has never been set converts at par: its effective rate is
/// `RATE_SCALE`, indistinguishable from a pair explicitly configured at par.
pub proof fn lemma_unset_pair_converts_at_par(t: RateTable, a: AccountId, b: AccountId)
    requires
        t.spec_lookup(a, b) is None,
    ensures
        t.spec_rate(a, b) == RATE_SCALE,
{
}

/// A zero-amount request in a batch is skipped entirely: putting one in
/// front of any request sequence changes neither the resulting balances,
/// nor the accumulated total, nor whether the batch succeeds.
pub proof fn lemma_zero_leg_skipped(
    rates: RateTable,
    balances: Map<AccountId, u128>,
    caller: AccountId,
    from_token: AccountId,
    to_token: AccountId,
    rest: Seq<(AccountId, AccountId, u128)>,
)
    ensures
        spec_batch(rates, balances, caller, seq![(from_token, to_token, 0u128)] + rest)
            == spec_batch(rates, balances, caller, rest),
{
    let s = seq![(from_token, to_token, 0u128)] + rest;
    assert(s.subrange(1, s.len() as int) =~= rest);
}

/// A batch of one nonzero request agrees with the single conversion: with
/// a sufficient balance it applies the same debit and credit and yields the
/// same truncated output, and with a short balance it fails leaving the
/// balances untouched.
pub proof fn lemma_singleton_batch_matches_single(
    rates: RateTable,
    balances: Map<AccountId, u128>,
    caller: AccountId,
    from_token: AccountId,
    to_token: AccountId,
    amount: u128,
)
    requires
        amount != 0,
    ensures
        ({
            let o = spec_batch(rates, balances, caller, seq![(from_token, to_token, amount)]);
            let out = spec_output(amount, rates.spec_rate(from_token, to_token));
            &&& balances[caller] >= amount ==> o == (
                spec_swap_applied(balances, caller, to_token, amount, out as u128),
                out,
                true,
            )
            &&& balances[caller] < amount ==> o == (balances, 0int, false)
        }),
{
    reveal_with_fuel(spec_batch, 3);
    let s = seq![(from_token, to_token, amount)];
    assert(s.subrange(1, 1) =~= Seq::<(AccountId, AccountId, u128)>::empty());
}

/// Deposits are additive: crediting `x` and then `y` to the same account
/// leaves exactly the balances of crediting `x + y` at once.
pub proof fn lemma_deposits_additive(
    balances: Map<AccountId, u128>,
    caller: AccountId,
    x: u128,
    y: u128,
)
    requires
        balances[caller] + x + y <= u128::MAX,
    ensures
        ({
            let once = balances.insert(caller, (balances[caller] + x) as u128);
            let twice = once.insert(caller, (once[caller] + y) as u128);
            twice == balances.insert(caller, (balances[caller] + x + y) as u128)
        }),
{
    let once = balances.insert(caller, (balances[caller] + x) as u128);
    let twice = once.insert(caller, (once[caller] + y) as u128);
    assert(twice =~= balances.insert(caller, (balances[caller] + x + y) as u128));
}

} // verus!
