//! What every monetary term can do, and the terms a sum is made of.

use crate::bank::{Bank, Rates};
use crate::currency::Currency;
use crate::money::Money;
use crate::sum::Sum;
use vstd::prelude::*;

verus! {

/// A monetary term: anything that a bank can reduce to one [`Money`] and that
/// can be scaled by an integer factor.
///
/// The three spec functions are the mathematical meaning of a term; the two
/// executable methods are bound to them for every implementor, so code that is
/// generic over `Expression` can rely on the contracts below alone.
pub trait Expression {
    /// The amount this term is worth in `currency` when converted with `rates`.
    spec fn amount_in(&self, rates: Rates, currency: Currency) -> nat;

    /// Whether every money amount in this term can be multiplied by
    /// `multiplier` without leaving the range of amounts.
    spec fn scalable(&self, multiplier: u32) -> bool;

    /// This term with every money amount in it multiplied by `multiplier`.
    spec fn scaled(&self, multiplier: u32) -> Sum;

    /// Reduces this term to a single money value in `currency`, converting with
    /// the bank's rates. Neither the term nor the bank changes.
    fn reduced(&self, bank: &Bank, currency: Currency) -> (money: Money)
        requires
            bank.wf(),
            self.amount_in(bank@, currency) <= u32::MAX,
        ensures
            money.currency == currency,
            money.amount == self.amount_in(bank@, currency),
    ;

    /// Scales this term by `multiplier`. Scaling reaches every leaf of the
    /// term, so the product can still be reduced in any currency.
    fn times(&self, multiplier: u32) -> (product: Box<Sum>)
        requires
            self.scalable(multiplier),
        ensures
            *product == self.scaled(multiplier),
    ;
}

/// One side of a [`Sum`]: a leaf holding money, or another sum.
#[derive(Debug)]
pub enum Operand {
    /// A leaf.
    Money(Money),
    /// A nested sum.
    Sum(Sum),
}

impl Expression for Operand {
    open spec fn amount_in(&self, rates: Rates, currency: Currency) -> nat
        decreases self,
    {
        match self {
            Operand::Money(money) => money.amount_in(rates, currency),
            Operand::Sum(sum) => sum.amount_in(rates, currency),
        }
    }

    open spec fn scalable(&self, multiplier: u32) -> bool
        decreases self,
    {
        match self {
            Operand::Money(money) => money.scalable(multiplier),
            Operand::Sum(sum) => sum.scalable(multiplier),
        }
    }

    open spec fn scaled(&self, multiplier: u32) -> Sum
        decreases self,
    {
        match self {
            Operand::Money(money) => money.scaled(multiplier),
            Operand::Sum(sum) => sum.scaled(multiplier),
        }
    }

    fn reduced(&self, bank: &Bank, currency: Currency) -> (money: Money)
        decreases self,
    {
        match self {
            Operand::Money(money) => money.reduced(bank, currency),
            Operand::Sum(sum) => sum.reduced(bank, currency),
        }
    }

    fn times(&self, multiplier: u32) -> (product: Box<Sum>)
        decreases self,
    {
        match self {
            Operand::Money(money) => money.times(multiplier),
            Operand::Sum(sum) => sum.times(multiplier),
        }
    }
}

} // verus!
