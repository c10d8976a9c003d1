//! Money in several currencies, sums of money, and a bank that reduces such
//! expressions to one amount in one currency.
//!
//! A [`Money`] is an amount tagged with a [`Currency`]. Adding or scaling money
//! performs no arithmetic across currencies: it builds a [`Sum`], a tree whose
//! leaves are money. A [`Bank`] owns a table of directed exchange rates and
//! reduces any [`Expression`] to a single [`Money`] in a currency of the
//! caller's choice.
//!
//! Every executable function carries a contract stated over the rate table as
//! a mathematical map and over the expression tree itself.

pub mod bank;
pub mod currency;
pub mod expression;
pub mod laws;
pub mod money;
pub mod sum;

pub use bank::{rate_between, Bank, RateError, Rates};
pub use currency::Currency;
pub use expression::{Expression, Operand};
pub use money::Money;
pub use sum::Sum;
