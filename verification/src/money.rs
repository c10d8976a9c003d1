//! Money: an amount in a currency.

use crate::bank::{rate_between, Bank, Rates};
use crate::currency::Currency;
use crate::expression::{Expression, Operand};
use crate::sum::Sum;
use std::ops::{Add, Mul};
use vstd::prelude::*;
use vstd::std_specs::cmp::PartialEqSpecImpl;
use vstd::std_specs::ops::{AddSpecImpl, MulSpecImpl};

verus! {

/// An amount of money in one currency. The leaf of every expression.
///
/// Money is a plain value: operations on it produce new values.
#[derive(Debug, Clone, Copy)]
pub struct Money {
    /// How much.
    pub amount: u32,
    /// In which currency.
    pub currency: Currency,
}

impl Money {
    /// `amount` in `currency`.
    pub fn new(amount: u32, currency: Currency) -> (money: Money)
        ensures
            money == (Money { amount, currency }),
    {
        Money { amount, currency }
    }

    /// `amount` dollars.
    pub fn dollar(amount: u32) -> (money: Money)
        ensures
            money == (Money { amount, currency: Currency::USD }),
    {
        Money { amount, currency: Currency::USD }
    }

    /// `amount` francs.
    pub fn franc(amount: u32) -> (money: Money)
        ensures
            money == (Money { amount, currency: Currency::CHE }),
    {
        Money { amount, currency: Currency::CHE }
    }
}

impl Expression for Money {
    /// The amount divided by the rate from this money's currency to
    /// `currency`, truncated toward zero.
    open spec fn amount_in(&self, rates: Rates, currency: Currency) -> nat {
        self.amount as nat / rate_between(rates, self.currency, currency)
    }

    open spec fn scalable(&self, multiplier: u32) -> bool {
        self.amount * multiplier <= u32::MAX
    }

    /// The scaled amount as augend and a zero addend, both in this money's
    /// currency.
    open spec fn scaled(&self, multiplier: u32) -> Sum {
        Sum {
            augend: Box::new(
                Operand::Money(
                    Money { amount: (self.amount * multiplier) as u32, currency: self.currency },
                ),
            ),
            addend: Box::new(Operand::Money(Money { amount: 0, currency: self.currency })),
        }
    }

    fn reduced(&self, bank: &Bank, currency: Currency) -> (money: Money)
        ensures
            self.currency == currency ==> money == *self,
    {
        let rate = bank.get_rate(self.currency, currency);
        Money { amount: self.amount / rate, currency }
    }

    fn times(&self, multiplier: u32) -> (product: Box<Sum>) {
        Box::new(
            Sum {
                augend: Box::new(
                    Operand::Money(
                        Money { amount: self.amount * multiplier, currency: self.currency },
                    ),
                ),
                addend: Box::new(Operand::Money(Money { amount: 0, currency: self.currency })),
            },
        )
    }
}

impl PartialEq for Money {
    /// Two money values are equal when both the currency and the amount agree.
    fn eq(&self, other: &Self) -> (equal: bool) {
        self.currency == other.currency && self.amount == other.amount
    }
}

impl PartialEqSpecImpl for Money {
    open spec fn obeys_eq_spec() -> bool {
        true
    }

    open spec fn eq_spec(&self, other: &Self) -> bool {
        self.currency == other.currency && self.amount == other.amount
    }
}

impl Add for Money {
    type Output = Sum;

    /// Defers the addition: the result is the sum of the two values as they
    /// are, each in its own currency.
    fn add(self, other: Money) -> (sum: Sum) {
        Sum { augend: Box::new(Operand::Money(self)), addend: Box::new(Operand::Money(other)) }
    }
}

impl AddSpecImpl for Money {
    open spec fn obeys_add_spec() -> bool {
        true
    }

    open spec fn add_req(self, other: Money) -> bool {
        true
    }

    open spec fn add_spec(self, other: Money) -> Sum {
        Sum { augend: Box::new(Operand::Money(self)), addend: Box::new(Operand::Money(other)) }
    }
}

impl Mul<u32> for Money {
    type Output = Money;

    /// The amount multiplied by `multiplier`, in the same currency.
    fn mul(self, multiplier: u32) -> (product: Money) {
        Money { amount: self.amount * multiplier, currency: self.currency }
    }
}

impl MulSpecImpl<u32> for Money {
    open spec fn obeys_mul_spec() -> bool {
        true
    }

    open spec fn mul_req(self, multiplier: u32) -> bool {
        self.amount * multiplier <= u32::MAX
    }

    open spec fn mul_spec(self, multiplier: u32) -> Money {
        Money { amount: (self.amount * multiplier) as u32, currency: self.currency }
    }
}

} // verus!
