//! Prorated price differences for subscribers who switch billing plans
//! part-way through a billing cycle.

mod clock;
mod money;
mod plan;
mod proration;

pub use clock::{
    days_before, days_elapsed, elapsed_days, past_date, MAX_SHIFT_DAYS, SECONDS_PER_DAY,
    TIMESTAMP_LIMIT,
};
pub use money::{currency_label, lemma_sub_anti_commutative, BillingError, Currency, Money};
pub use plan::{Plan, Subscription, DEFAULT_TERM_DAYS};
pub use proration::{
    calculate_price_diff, consumed_fee, lemma_downgrade_is_free, lemma_first_day_charges_full_price,
    lemma_price_diff_is_repeatable, lemma_upgrade_charges_price_less_consumed, price_diff,
    price_diff_after, price_diff_at,
};
