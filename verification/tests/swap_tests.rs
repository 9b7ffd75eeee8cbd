use stablecoin_swap::AccountId;
use stablecoin_swap::Error;
use stablecoin_swap::StablecoinSwap;

fn ids() -> (AccountId, AccountId, AccountId, AccountId) {
    (
        AccountId::new(1),
        AccountId::new(2),
        AccountId::new(10),
        AccountId::new(11),
    )
}

#[test]
fn new_works() {
    let creator = AccountId::new(0x1);
    let contract = StablecoinSwap::new(creator);
    assert_eq!(contract.owner(), creator);
}

#[test]
fn set_and_get_exchange_rate_works() {
    let (owner, _user, from_token, to_token) = ids();
    let mut contract = StablecoinSwap::new(owner);
    let rate = 1_100_000; // 1.1:1 rate

    assert_eq!(
        contract.set_exchange_rate(owner, from_token, to_token, rate),
        Ok(())
    );
    assert_eq!(contract.get_exchange_rate(from_token, to_token), rate);
}

#[test]
fn unset_pair_reads_as_par() {
    let (owner, _user, a, b) = ids();
    let mut contract = StablecoinSwap::new(owner);
    assert_eq!(contract.get_exchange_rate(a, b), 1_000_000);

    // Setting one direction leaves the opposite direction at par.
    assert_eq!(contract.set_exchange_rate(owner, a, b, 2_000_000), Ok(()));
    assert_eq!(contract.get_exchange_rate(b, a), 1_000_000);
}

#[test]
fn zero_rate_is_stored_exactly() {
    let (owner, _user, a, b) = ids();
    let mut contract = StablecoinSwap::new(owner);
    assert_eq!(contract.set_exchange_rate(owner, a, b, 0), Ok(()));
    assert_eq!(contract.get_exchange_rate(a, b), 0);
}

#[test]
fn overwriting_a_rate_keeps_the_latest_value() {
    let (owner, _user, a, b) = ids();
    let mut contract = StablecoinSwap::new(owner);
    assert_eq!(contract.set_exchange_rate(owner, a, b, 500_000), Ok(()));
    assert_eq!(contract.set_exchange_rate(owner, a, b, 750_000), Ok(()));
    assert_eq!(contract.get_exchange_rate(a, b), 750_000);
}

#[test]
fn non_owner_cannot_set_rate() {
    let (owner, user, a, b) = ids();
    let mut contract = StablecoinSwap::new(owner);
    assert_eq!(
        contract.set_exchange_rate(user, a, b, 1_100_000),
        Err(Error::NotOwner)
    );
    // The table is unchanged: the pair still reads as par.
    assert_eq!(contract.get_exchange_rate(a, b), 1_000_000);
}

#[test]
fn zero_amount_swap_fails_without_mutation() {
    let (owner, user, a, b) = ids();
    let mut contract = StablecoinSwap::new(owner);
    assert_eq!(contract.deposit_tokens(user, 500), Ok(()));

    assert_eq!(contract.execute_swap(user, a, b, 0), Err(Error::ZeroAmount));
    assert_eq!(contract.get_token_balance(user), 500);
    assert_eq!(contract.get_token_balance(b), 0);
    assert_eq!(contract.swap_events.len(), 0);
}

#[test]
fn swap_debits_caller_and_credits_destination() {
    let (owner, user, a, b) = ids();
    let mut contract = StablecoinSwap::new(owner);
    assert_eq!(contract.set_exchange_rate(owner, a, b, 1_100_000), Ok(()));
    assert_eq!(contract.deposit_tokens(user, 1000), Ok(()));

    assert_eq!(contract.execute_swap(user, a, b, 1000), Ok(1100));
    assert_eq!(contract.get_token_balance(user), 0);
    assert_eq!(contract.get_token_balance(b), 1100);

    assert_eq!(contract.swap_events.len(), 1);
    let ev = contract.swap_events[0];
    assert_eq!(ev.from, a);
    assert_eq!(ev.to, b);
    assert_eq!(ev.from_amount, 1000);
    assert_eq!(ev.to_amount, 1100);
}

#[test]
fn insufficient_balance_swap_leaves_balances_unchanged() {
    let (owner, user, a, b) = ids();
    let mut contract = StablecoinSwap::new(owner);
    assert_eq!(contract.deposit_tokens(user, 5), Ok(()));

    assert_eq!(
        contract.execute_swap(user, a, b, 7),
        Err(Error::InsufficientBalance)
    );
    assert_eq!(contract.get_token_balance(user), 5);
    assert_eq!(contract.get_token_balance(b), 0);
    assert_eq!(contract.swap_events.len(), 0);
}

#[test]
fn swap_output_truncates_toward_zero() {
    let (owner, user, a, b) = ids();

    // Par rate: the amount passes through unchanged.
    let mut par = StablecoinSwap::new(owner);
    assert_eq!(par.deposit_tokens(user, 7), Ok(()));
    assert_eq!(par.execute_swap(user, a, b, 7), Ok(7));

    // floor(10 * 333_333 / 1_000_000) == 3: truncation, not rounding.
    let mut scaled = StablecoinSwap::new(owner);
    assert_eq!(scaled.set_exchange_rate(owner, a, b, 333_333), Ok(()));
    assert_eq!(scaled.deposit_tokens(user, 10), Ok(()));
    assert_eq!(scaled.execute_swap(user, a, b, 10), Ok(3));
}

#[test]
fn swap_to_the_caller_credits_the_debited_balance() {
    let (owner, user, a, _b) = ids();
    let mut contract = StablecoinSwap::new(owner);
    assert_eq!(contract.deposit_tokens(user, 100), Ok(()));

    // Destination identifier is the caller: the credit reads the balance
    // left by the debit, so at par the total is restored.
    assert_eq!(contract.execute_swap(user, a, user, 50), Ok(50));
    assert_eq!(contract.get_token_balance(user), 100);
}

#[test]
fn batch_skips_zero_legs_but_counts_them() {
    let (owner, user, a, b) = ids();

    let mut batch = StablecoinSwap::new(owner);
    assert_eq!(batch.set_exchange_rate(owner, a, b, 1_100_000), Ok(()));
    assert_eq!(batch.deposit_tokens(user, 100), Ok(()));
    let total = batch.execute_batch_swap(user, vec![(a, b, 0), (a, b, 100)]);

    // The same single conversion on a fresh engine gives the same output.
    let mut single = StablecoinSwap::new(owner);
    assert_eq!(single.set_exchange_rate(owner, a, b, 1_100_000), Ok(()));
    assert_eq!(single.deposit_tokens(user, 100), Ok(()));
    assert_eq!(total, single.execute_swap(user, a, b, 100));
    assert_eq!(total, Ok(110));

    // The notification counts the whole request sequence, zero leg included.
    assert_eq!(batch.batch_events.len(), 1);
    assert_eq!(batch.batch_events[0].user, user);
    assert_eq!(batch.batch_events[0].swap_count, 2);
    assert_eq!(batch.batch_events[0].total_amount, 110);
    // Batches log no per-conversion notifications.
    assert_eq!(batch.swap_events.len(), 0);
}

#[test]
fn failing_batch_keeps_earlier_mutations() {
    let (owner, user, a, b) = ids();
    let mut contract = StablecoinSwap::new(owner);
    assert_eq!(contract.deposit_tokens(user, 100), Ok(()));

    // The second of three requests fails the sufficiency check: the whole
    // call fails, and the first request's mutations stay (partial commit).
    let r = contract.execute_batch_swap(user, vec![(a, b, 60), (a, b, 60), (a, b, 10)]);
    assert_eq!(r, Err(Error::InsufficientBalance));
    assert_eq!(contract.get_token_balance(user), 40);
    assert_eq!(contract.get_token_balance(b), 60);
    assert_eq!(contract.batch_events.len(), 0);
}

#[test]
fn empty_batch_succeeds_with_zero_total() {
    let (owner, user, _a, _b) = ids();
    let mut contract = StablecoinSwap::new(owner);
    assert_eq!(contract.execute_batch_swap(user, vec![]), Ok(0));
    assert_eq!(contract.batch_events.len(), 1);
    assert_eq!(contract.batch_events[0].swap_count, 0);
    assert_eq!(contract.batch_events[0].total_amount, 0);
}

#[test]
fn batch_uses_the_running_balance() {
    let (owner, user, a, b) = ids();
    let mut contract = StablecoinSwap::new(owner);
    assert_eq!(contract.deposit_tokens(user, 100), Ok(()));

    // 60 + 60 exceeds the starting balance: the second request sees the
    // balance left by the first, not a frozen snapshot.
    let r = contract.execute_batch_swap(user, vec![(a, b, 60), (a, b, 60)]);
    assert_eq!(r, Err(Error::InsufficientBalance));
}

#[test]
fn deposits_are_additive() {
    let (owner, user, _a, _b) = ids();
    let mut contract = StablecoinSwap::new(owner);
    assert_eq!(contract.deposit_tokens(user, 300), Ok(()));
    assert_eq!(contract.deposit_tokens(user, 45), Ok(()));
    assert_eq!(contract.get_token_balance(user), 345);

    // Deposits are keyed by the caller alone.
    let other = AccountId::new(77);
    assert_eq!(contract.get_token_balance(other), 0);
    assert_eq!(contract.deposit_tokens(other, 7), Ok(()));
    assert_eq!(contract.get_token_balance(other), 7);
    assert_eq!(contract.get_token_balance(user), 345);
}

#[test]
fn fits_guards_detect_product_overflow() {
    let (owner, user, a, b) = ids();
    let mut contract = StablecoinSwap::new(owner);
    assert_eq!(contract.deposit_tokens(user, 1000), Ok(()));

    // At the par rate the product u128::MAX * 1_000_000 overflows.
    assert!(!contract.swap_fits(user, a, b, u128::MAX));
    assert!(!contract.batch_fits(user, &vec![(a, b, u128::MAX)]));

    assert!(contract.swap_fits(user, a, b, 1000));
    assert!(contract.batch_fits(user, &vec![(a, b, 0), (a, b, 1000)]));
}

#[test]
fn fits_guards_detect_credit_overflow() {
    let (owner, user, a, b) = ids();
    let mut contract = StablecoinSwap::new(owner);
    assert_eq!(contract.deposit_tokens(b, u128::MAX), Ok(()));
    assert_eq!(contract.deposit_tokens(user, 10), Ok(()));

    // Crediting 10 more to a destination already at u128::MAX overflows.
    assert!(!contract.swap_fits(user, a, b, 10));
    assert!(!contract.batch_fits(user, &vec![(a, b, 10)]));

    // With a short balance the conversion is refused before the credit, so
    // nothing overflows and the guard accepts the call.
    assert!(contract.swap_fits(user, a, b, 11));
}

#[test]
fn destination_credit_accumulates() {
    let (owner, user, a, b) = ids();
    let mut contract = StablecoinSwap::new(owner);
    assert_eq!(contract.deposit_tokens(b, 1000), Ok(()));
    assert_eq!(contract.deposit_tokens(user, 30), Ok(()));

    assert_eq!(contract.execute_swap(user, a, b, 30), Ok(30));
    assert_eq!(contract.get_token_balance(b), 1030);
}
