//! Sums: deferred additions of two terms.

use crate::bank::{Bank, Rates};
use crate::currency::Currency;
use crate::expression::{Expression, Operand};
use crate::money::Money;
use std::ops::Add;
use vstd::prelude::*;
use vstd::std_specs::ops::AddSpecImpl;

verus! {

/// The deferred addition of two terms, which it owns.
///
/// A sum has no currency of its own: the currency of its reduction is the one
/// the caller asks for.
#[derive(Debug)]
pub struct Sum {
    /// The first term.
    pub augend: Box<Operand>,
    /// The term added to it.
    pub addend: Box<Operand>,
}

impl Sum {
    /// The sum of `augend` and `addend`.
    pub fn new(augend: Box<Operand>, addend: Box<Operand>) -> (sum: Sum)
        ensures
            sum == (Sum { augend, addend }),
    {
        Sum { augend, addend }
    }
}

impl Expression for Sum {
    /// The amounts of the two sides, each in `currency`, added up.
    open spec fn amount_in(&self, rates: Rates, currency: Currency) -> nat
        decreases self,
    {
        self.augend.amount_in(rates, currency) + self.addend.amount_in(rates, currency)
    }

    open spec fn scalable(&self, multiplier: u32) -> bool
        decreases self,
    {
        self.augend.scalable(multiplier) && self.addend.scalable(multiplier)
    }

    /// The sum of the two sides, each scaled.
    open spec fn scaled(&self, multiplier: u32) -> Sum
        decreases self,
    {
        Sum {
            augend: Box::new(Operand::Sum(self.augend.scaled(multiplier))),
            addend: Box::new(Operand::Sum(self.addend.scaled(multiplier))),
        }
    }

    fn reduced(&self, bank: &Bank, currency: Currency) -> (money: Money)
        decreases self,
    {
        assert(self.amount_in(bank@, currency) == self.augend.amount_in(bank@, currency)
            + self.addend.amount_in(bank@, currency));
        let augend = self.augend.reduced(bank, currency);
        let addend = self.addend.reduced(bank, currency);
        Money { amount: augend.amount + addend.amount, currency }
    }

    fn times(&self, multiplier: u32) -> (product: Box<Sum>)
        decreases self,
    {
        let augend = self.augend.times(multiplier);
        let addend = self.addend.times(multiplier);
        Box::new(
            Sum { augend: Box::new(Operand::Sum(*augend)), addend: Box::new(Operand::Sum(*addend)) },
        )
    }
}

impl Add<Box<Operand>> for Sum {
    type Output = Sum;

    /// Wraps this sum as the augend of a new sum whose addend is `other`. The
    /// tree is not flattened.
    fn add(self, other: Box<Operand>) -> (sum: Sum) {
        Sum { augend: Box::new(Operand::Sum(self)), addend: other }
    }
}

impl AddSpecImpl<Box<Operand>> for Sum {
    open spec fn obeys_add_spec() -> bool {
        true
    }

    open spec fn add_req(self, other: Box<Operand>) -> bool {
        true
    }

    open spec fn add_spec(self, other: Box<Operand>) -> Sum {
        Sum { augend: Box::new(Operand::Sum(self)), addend: other }
    }
}

} // verus!
