use vstd::prelude::*;
use crate::clock::{
    days_elapsed, elapsed_days, now_timestamp, SECONDS_PER_DAY, TIMESTAMP_LIMIT,
};
use crate::money::{BillingError, Money};
use crate::plan::{Plan, Subscription};

verus! {

/// What `days` days of `plan` have used up: its price per whole day, rounded
/// down, times the days.
pub open spec fn consumed_fee(plan: Plan, days: nat) -> int {
    (plan.price.amount / plan.billing_cycle_days) as int * days
}

/// The price of moving to `next` after `days` days on `current`.
///
/// Moving to a strictly cheaper plan costs nothing, in `current`'s currency.
/// Otherwise the charge is `next`'s price less what the days have used up of
/// `current`, in `next`'s currency; it fails when `current`'s billing cycle
/// has no days, when the two plans are priced in different currencies, and
/// when more has been used up than `next` costs.
pub open spec fn price_diff(current: Plan, next: Plan, days: nat) -> Result<Money, BillingError> {
    if current.price.amount > next.price.amount {
        Ok(Money { amount: 0, currency: current.price.currency })
    } else if current.billing_cycle_days == 0 {
        Err(BillingError::InvalidBillingCycle)
    } else if next.price.currency != current.price.currency {
        Err(BillingError::CurrencyMismatch)
    } else if consumed_fee(current, days) > next.price.amount {
        Err(BillingError::AmountUnderflow)
    } else {
        Ok(
            Money {
                amount: (next.price.amount - consumed_fee(current, days)) as u32,
                currency: next.price.currency,
            },
        )
    }
}

/// The price of moving from `current` to `next_plan` after `days` whole days
/// of `current`'s billing cycle.
pub fn price_diff_after(current: &Plan, next_plan: &Plan, days: u64) -> (r: Result<
    Money,
    BillingError,
>)
    ensures
        r == price_diff(*current, *next_plan, days as nat),
{
    if current.price.gt(&next_plan.price) {
        return Ok(Money::new(0, current.price.currency));
    }
    if current.billing_cycle_days == 0 {
        return Err(BillingError::InvalidBillingCycle);
    }
    if !next_plan.price.currency.eq(&current.price.currency) {
        return Err(BillingError::CurrencyMismatch);
    }
    let fee_per_day: u32 = current.price.amount / current.billing_cycle_days;
    assert(fee_per_day as int * days as int <= u32::MAX as int * u64::MAX as int)
        by (nonlinear_arith)
        requires
            fee_per_day <= u32::MAX,
            days <= u64::MAX,
    ;
    let consumed: u128 = fee_per_day as u128 * days as u128;
    if consumed > u32::MAX as u128 {
        return Err(BillingError::AmountUnderflow);
    }
    let consumed_fee = Money::new(consumed as u32, current.price.currency);
    next_plan.price.sub(&consumed_fee)
}

/// The price of moving `subscription` to `next_plan` at the moment `now`,
/// in seconds since the epoch.
pub fn price_diff_at(subscription: &Subscription, next_plan: &Plan, now: i64) -> (r: Result<
    Money,
    BillingError,
>)
    ensures
        r == price_diff(
            subscription.plan,
            *next_plan,
            elapsed_days(subscription.start_at as int, now as int),
        ),
{
    let days = days_elapsed(subscription.start_at, now);
    price_diff_after(&subscription.plan, next_plan, days)
}

/// The price of moving `subscription` to `next_plan` now: what
/// `price_diff_at` gives for some moment that the clock can show.
pub fn calculate_price_diff(subscription: Subscription, next_plan: Plan) -> (r: Result<
    Money,
    BillingError,
>)
    ensures
        exists|at: int|
            0 <= at < TIMESTAMP_LIMIT && r == price_diff(
                subscription.plan,
                next_plan,
                #[trigger] elapsed_days(subscription.start_at as int, at),
            ),
        subscription.plan.price.amount > next_plan.price.amount ==> r == Ok::<
            Money,
            BillingError,
        >((Money { amount: 0, currency: subscription.plan.price.currency })),
        subscription.plan.price.amount <= next_plan.price.amount
            && subscription.plan.billing_cycle_days == 0 ==> r == Err::<Money, BillingError>(
            BillingError::InvalidBillingCycle,
        ),
        subscription.plan.price.amount <= next_plan.price.amount
            && subscription.plan.billing_cycle_days > 0 && next_plan.price.currency
            != subscription.plan.price.currency ==> r == Err::<Money, BillingError>(
            BillingError::CurrencyMismatch,
        ),
{
    let at = now_timestamp();
    let r = price_diff_at(&subscription, &next_plan, at);
    assert(r == price_diff(
        subscription.plan,
        next_plan,
        elapsed_days(subscription.start_at as int, at as int),
    ));
    r
}

/// Moving to a more expensive plan costs that plan's price less the current
/// plan's daily fee, rounded down, times the days elapsed, in the new plan's
/// currency, wherever that is defined: a billing cycle of some days, one
/// currency for both plans, and no more used up than the new plan costs.
pub proof fn lemma_upgrade_charges_price_less_consumed(current: Plan, next: Plan, days: nat)
    requires
        next.price.amount > current.price.amount,
        current.billing_cycle_days > 0,
        next.price.currency == current.price.currency,
        consumed_fee(current, days) <= next.price.amount,
    ensures
        price_diff(current, next, days) matches Ok(m) && m.currency == next.price.currency
            && m.amount == next.price.amount - (current.price.amount
            / current.billing_cycle_days) as int * days,
{
}

/// Moving to a strictly cheaper plan costs nothing, in the current plan's
/// currency, however many days have elapsed.
pub proof fn lemma_downgrade_is_free(current: Plan, next: Plan, days: nat)
    requires
        current.price.amount > next.price.amount,
    ensures
        price_diff(current, next, days) == Ok::<Money, BillingError>(
            (Money { amount: 0, currency: current.price.currency }),
        ),
{
}

/// The price of a move depends on nothing but the two prices, the current
/// billing cycle and the whole days elapsed: asked again with the same
/// inputs, at any moment of the same day, the answer is the same.
pub proof fn lemma_price_diff_is_repeatable(
    first: Subscription,
    second: Subscription,
    next_first: Plan,
    next_second: Plan,
    at_first: int,
    at_second: int,
)
    requires
        first.plan.price == second.plan.price,
        first.plan.billing_cycle_days == second.plan.billing_cycle_days,
        next_first.price == next_second.price,
        elapsed_days(first.start_at as int, at_first) == elapsed_days(
            second.start_at as int,
            at_second,
        ),
    ensures
        price_diff(first.plan, next_first, elapsed_days(first.start_at as int, at_first))
            == price_diff(second.plan, next_second, elapsed_days(second.start_at as int, at_second)),
{
}

/// Within the first day of a subscription, moving to a plan that costs no
/// less charges exactly that plan's price: nothing has been used up yet.
pub proof fn lemma_first_day_charges_full_price(subscription: Subscription, next: Plan, at: int)
    requires
        subscription.start_at <= at < subscription.start_at + SECONDS_PER_DAY,
        subscription.plan.price.amount <= next.price.amount,
        subscription.plan.billing_cycle_days > 0,
        next.price.currency == subscription.plan.price.currency,
    ensures
        elapsed_days(subscription.start_at as int, at) == 0,
        price_diff(subscription.plan, next, elapsed_days(subscription.start_at as int, at))
            == Ok::<Money, BillingError>(next.price),
{
    let span = at - subscription.start_at;
    assert(span / (SECONDS_PER_DAY as int) == 0) by (nonlinear_arith)
        requires
            0 <= span < SECONDS_PER_DAY,
    ;
    assert(consumed_fee(subscription.plan, 0) == 0);
}

} // verus!
