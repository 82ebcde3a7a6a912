use vstd::prelude::*;

verus! {

/// The currencies a price can be stated in.
#[derive(Debug, Clone, Copy, PartialEq, Eq, Structural)]
pub enum Currency {
    USD,
    EUR,
    RON,
    GBP,
}

/// What can go wrong when prices are combined.
#[derive(Debug, Clone, Copy, PartialEq, Eq, Structural)]
pub enum BillingError {
    /// Two amounts in different currencies were combined.
    CurrencyMismatch,
    /// A subtraction would have made an amount negative.
    AmountUnderflow,
    /// A plan's billing cycle lasts zero days.
    InvalidBillingCycle,
}

/// The short parenthesized code of a currency, such as `(GBP)`.
pub open spec fn currency_label(c: Currency) -> Seq<char> {
    match c {
        Currency::USD => "(USD)"@,
        Currency::EUR => "(EUR)"@,
        Currency::RON => "(RON)"@,
        Currency::GBP => "(GBP)"@,
    }
}

impl Currency {
    /// True when both are the same currency.
    pub fn eq(&self, currency: &Currency) -> (r: bool)
        ensures
            r == (*self == *currency),
    {
        *self == *currency
    }

    /// The currency's code in parentheses, such as `(GBP)`.
    pub fn to_string(&self) -> (r: String)
        ensures
            r@ == currency_label(*self),
    {
        match self {
            Currency::USD => "(USD)".to_owned(),
            Currency::EUR => "(EUR)".to_owned(),
            Currency::RON => "(RON)".to_owned(),
            Currency::GBP => "(GBP)".to_owned(),
        }
    }
}

/// A non-negative amount in minor units (pence, cents) of a currency.
#[derive(Debug, Clone, Copy)]
pub struct Money {
    pub amount: u32,
    pub currency: Currency,
}

impl Money {
    /// What `sub` returns: the difference in the left operand's currency,
    /// or the reason there is none.
    pub open spec fn difference(self, other: Money) -> Result<Money, BillingError> {
        if self.currency != other.currency {
            Err(BillingError::CurrencyMismatch)
        } else if self.amount < other.amount {
            Err(BillingError::AmountUnderflow)
        } else {
            Ok(Money { amount: (self.amount - other.amount) as u32, currency: self.currency })
        }
    }

    pub fn new(amount: u32, currency: Currency) -> (r: Money)
        ensures
            r.amount == amount,
            r.currency == currency,
    {
        Money { amount, currency }
    }

    /// Compares amounts only; the currencies are not consulted.
    pub fn eq(&self, money: &Money) -> (r: bool)
        ensures
            r == (self.amount == money.amount),
    {
        self.amount == money.amount
    }

    /// Compares amounts only; the currencies are not consulted.
    pub fn gt(&self, money: &Money) -> (r: bool)
        ensures
            r == (self.amount > money.amount),
    {
        self.amount > money.amount
    }

    /// Compares amounts only; the currencies are not consulted.
    pub fn lt(&self, money: &Money) -> (r: bool)
        ensures
            r == (self.amount < money.amount),
    {
        self.amount < money.amount
    }

    /// `self - money`, in `self`'s currency. Fails when the currencies
    /// differ, and when `money` is the larger amount.
    pub fn sub(&self, money: &Money) -> (r: Result<Money, BillingError>)
        ensures
            r == self.difference(*money),
    {
        if !self.currency.eq(&money.currency) {
            Err(BillingError::CurrencyMismatch)
        } else if self.amount < money.amount {
            Err(BillingError::AmountUnderflow)
        } else {
            Ok(Money::new(self.amount - money.amount, self.currency))
        }
    }
}

/// Subtraction is anti-commutative in amount where the currencies match:
/// `a - b` comes out as `a.amount - b.amount` and `b - a` as its negation,
/// each wherever it is not negative; the order that would be negative fails
/// with `AmountUnderflow`. Where the currencies differ, both orders fail
/// with `CurrencyMismatch`.
pub proof fn lemma_sub_anti_commutative(a: Money, b: Money)
    ensures
        a.currency == b.currency ==> {
            &&& (a.difference(b) is Ok <==> a.amount >= b.amount)
            &&& (b.difference(a) is Ok <==> b.amount >= a.amount)
            &&& (a.difference(b) is Ok ==> a.difference(b)->Ok_0.amount == a.amount - b.amount)
            &&& (b.difference(a) is Ok ==> b.difference(a)->Ok_0.amount == -(a.amount
                - b.amount))
            &&& (a.difference(b) is Err ==> a.difference(b)->Err_0
                == BillingError::AmountUnderflow)
            &&& (b.difference(a) is Err ==> b.difference(a)->Err_0
                == BillingError::AmountUnderflow)
        },
        a.currency != b.currency ==> {
            &&& a.difference(b) == Err::<Money, BillingError>(BillingError::CurrencyMismatch)
            &&& b.difference(a) == Err::<Money, BillingError>(BillingError::CurrencyMismatch)
        },
{
}

} // verus!
