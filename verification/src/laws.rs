//! Laws that relate the operations of the library to one another.
//!
//! Each law is stated over the same spec functions the contracts of the
//! executable functions use, so it holds of what those functions return.

use crate::bank::{rate_between, Rates};
use crate::currency::Currency;
use crate::expression::{Expression, Operand};
use crate::money::Money;
use crate::sum::Sum;
use vstd::prelude::*;
use vstd::std_specs::ops::AddSpec;

verus! {

/// Reducing money into its own currency gives back the same amount, whatever
/// rates the table holds: a currency converts to itself at rate 1.
pub proof fn lemma_self_conversion_is_identity(money: Money, rates: Rates)
    ensures
        rate_between(rates, money.currency, money.currency) == 1,
        money.amount_in(rates, money.currency) == money.amount,
{
    assert(money.amount as nat / 1 == money.amount);
}

/// Scaling money and reducing the product into the money's own currency gives
/// the amount times the multiplier, whatever rates the table holds.
pub proof fn lemma_times_multiplies_amount(money: Money, multiplier: u32, rates: Rates)
    requires
        money.scalable(multiplier),
    ensures
        money.scaled(multiplier).amount_in(rates, money.currency) == money.amount * multiplier,
{
    let product = money.scaled(multiplier);
    assert(product.augend.amount_in(rates, money.currency) == money.amount * multiplier);
    assert(product.addend.amount_in(rates, money.currency) == 0);
}

/// Adding two money values in either order reduces to the same amount, in
/// every currency and at every rate table.
pub proof fn lemma_money_addition_commutes(
    first: Money,
    second: Money,
    rates: Rates,
    currency: Currency,
)
    ensures
        first.add_spec(second).amount_in(rates, currency) == second.add_spec(first).amount_in(
            rates,
            currency,
        ),
{
    lemma_sum_sides_commute(Operand::Money(first), Operand::Money(second), rates, currency);
}

/// The reduction of a sum does not depend on which term is the augend and
/// which the addend.
pub proof fn lemma_sum_sides_commute(
    left: Operand,
    right: Operand,
    rates: Rates,
    currency: Currency,
)
    ensures
        (Sum { augend: Box::new(left), addend: Box::new(right) }).amount_in(rates, currency) == (Sum {
            augend: Box::new(right),
            addend: Box::new(left),
        }).amount_in(rates, currency),
{
}

/// Rates are directed. Registering a rate for `(from, to)` makes that rate the
/// one for converting `from` into `to`, and leaves the rate for converting
/// `to` into `from` as it was.
pub proof fn lemma_rates_are_directed(rates: Rates, from: Currency, to: Currency, rate: u32)
    requires
        from != to,
    ensures
        rate_between(rates.insert((from, to), rate), from, to) == rate,
        rate_between(rates.insert((from, to), rate), to, from) == rate_between(rates, to, from),
{
}

/// Scaling distributes over a sum: scaling a sum gives the sum of its two
/// sides, each scaled. The two are the same tree, so they reduce to the same
/// amount in every currency and at every rate table.
pub proof fn lemma_scaling_distributes_over_sum(
    augend: Operand,
    addend: Operand,
    multiplier: u32,
    rates: Rates,
    currency: Currency,
)
    ensures
        (Sum { augend: Box::new(augend), addend: Box::new(addend) }).scaled(multiplier) == (Sum {
            augend: Box::new(Operand::Sum(augend.scaled(multiplier))),
            addend: Box::new(Operand::Sum(addend.scaled(multiplier))),
        }),
        (Sum { augend: Box::new(augend), addend: Box::new(addend) }).scaled(multiplier).amount_in(
            rates,
            currency,
        ) == (Sum {
            augend: Box::new(Operand::Sum(augend.scaled(multiplier))),
            addend: Box::new(Operand::Sum(addend.scaled(multiplier))),
        }).amount_in(rates, currency),
{
}

} // verus!
