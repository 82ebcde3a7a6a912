use vstd::prelude::*;
use crate::clock::{now_timestamp, SECONDS_PER_DAY, TIMESTAMP_LIMIT};
use crate::money::Money;

verus! {

/// How long a new subscription runs before it ends, whatever its plan's
/// billing cycle.
pub const DEFAULT_TERM_DAYS: i64 = 28;

/// Relies on uuid's `Uuid::new_v4` and its `Display`: a random identifier,
/// written in the hyphenated form of 36 characters.
#[verifier::external_body]
fn fresh_identifier() -> (r: String)
    ensures
        r@.len() == 36,
{
    uuid::Uuid::new_v4().to_string()
}

/// A billing offer: a price charged per billing cycle.
#[derive(Debug)]
pub struct Plan {
    pub id: String,
    pub price: Money,
    /// The plan to move to at the end of the cycle; the plan's own id when
    /// no move is scheduled.
    pub transition: String,
    pub billing_cycle_days: u32,
}

impl Plan {
    /// A plan with a fresh id and no scheduled move.
    pub fn new(price: Money, billing_cycle_days: u32) -> (r: Plan)
        ensures
            r.price == price,
            r.billing_cycle_days == billing_cycle_days,
            r.id@.len() == 36,
            r.transition@ == r.id@,
    {
        let id = fresh_identifier();
        let transition = id.clone();
        Plan { id, price, transition, billing_cycle_days }
    }

    /// Schedules a move to the plan with id `transition`.
    pub fn set_transition(&mut self, transition: String)
        ensures
            final(self).transition == transition,
            final(self).id == old(self).id,
            final(self).price == old(self).price,
            final(self).billing_cycle_days == old(self).billing_cycle_days,
    {
        self.transition = transition;
    }
}

/// A customer's enrollment in a plan, from `start_at` to `end_at`, both in
/// seconds since the epoch.
#[derive(Debug)]
pub struct Subscription {
    pub id: String,
    pub plan: Plan,
    pub start_at: i64,
    pub end_at: i64,
}

impl Subscription {
    /// A subscription with a fresh id, starting now and ending
    /// `DEFAULT_TERM_DAYS` days later.
    pub fn new(plan: Plan) -> (r: Subscription)
        ensures
            r.plan == plan,
            r.id@.len() == 36,
            0 <= r.start_at < TIMESTAMP_LIMIT,
            r.end_at == r.start_at + DEFAULT_TERM_DAYS * SECONDS_PER_DAY,
    {
        let id = fresh_identifier();
        let start_at = now_timestamp();
        let end_at = start_at + DEFAULT_TERM_DAYS * SECONDS_PER_DAY;
        Subscription { id, plan, start_at, end_at }
    }

    pub fn update_start_date(&mut self, start_at: i64)
        ensures
            final(self).start_at == start_at,
            final(self).end_at == old(self).end_at,
            final(self).id == old(self).id,
            final(self).plan == old(self).plan,
    {
        self.start_at = start_at;
    }

    pub fn update_end_date(&mut self, end_at: i64)
        ensures
            final(self).end_at == end_at,
            final(self).start_at == old(self).start_at,
            final(self).id == old(self).id,
            final(self).plan == old(self).plan,
    {
        self.end_at = end_at;
    }
}

} // verus!
