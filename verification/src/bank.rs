//! The bank: a table of directed exchange rates.

use crate::currency::Currency;
use crate::expression::Expression;
use crate::money::Money;
use std::collections::HashMap;
use vstd::prelude::*;

verus! {

broadcast use vstd::std_specs::hash::group_hash_axioms;

/// The mathematical model of a rate table: a finite map from an ordered pair
/// `(from, to)` of currencies to the rate registered for that direction.
pub type Rates = Map<(Currency, Currency), u32>;

/// The rate that converts an amount in `from` into an amount in `to`.
///
/// A currency converts to itself at rate 1 whatever the table holds. A pair of
/// distinct currencies converts at its registered rate, and at rate 1 when no
/// rate was registered for that direction.
pub open spec fn rate_between(rates: Rates, from: Currency, to: Currency) -> nat {
    if from == to {
        1
    } else if rates.contains_key((from, to)) {
        rates[(from, to)] as nat
    } else {
        1
    }
}

/// Why a rate was refused at registration.
#[derive(Debug, Clone, Copy, PartialEq, Eq, Structural)]
pub enum RateError {
    /// The rate was zero. Amounts are divided by the rate, so a rate must be
    /// positive.
    NonPositive,
}

/// Owner of the exchange rates.
///
/// Rates are directed: the rate for `(from, to)` says nothing about the rate
/// for `(to, from)`.
pub struct Bank {
    /// Registered rates, each stored under the slot of its pair.
    table: HashMap<u8, u32>,
}

/// How many currencies there are.
const CURRENCIES: u8 = 2;

/// Position of a currency in the enumeration.
spec fn ordinal(currency: Currency) -> nat {
    match currency {
        Currency::USD => 0,
        Currency::CHE => 1,
    }
}

/// The table key of an ordered pair: distinct pairs get distinct slots.
spec fn slot(from: Currency, to: Currency) -> u8 {
    (ordinal(from) * CURRENCIES + ordinal(to)) as u8
}

fn ordinal_of(currency: Currency) -> (position: u8)
    ensures
        position == ordinal(currency),
{
    match currency {
        Currency::USD => 0,
        Currency::CHE => 1,
    }
}

fn slot_of(from: Currency, to: Currency) -> (key: u8)
    ensures
        key == slot(from, to),
{
    ordinal_of(from) * CURRENCIES + ordinal_of(to)
}

impl View for Bank {
    type V = Rates;

    /// The rates registered so far.
    closed spec fn view(&self) -> Rates {
        Map::new(
            |pair: (Currency, Currency)| self.table@.contains_key(slot(pair.0, pair.1)),
            |pair: (Currency, Currency)| self.table@[slot(pair.0, pair.1)],
        )
    }
}

impl Bank {
    /// Validity of a bank: every registered rate is positive.
    pub open spec fn wf(&self) -> bool {
        forall|pair: (Currency, Currency)| #[trigger]
            self@.contains_key(pair) ==> self@[pair] > 0
    }

    /// A bank with no rate registered.
    pub fn new() -> (bank: Bank)
        ensures
            bank@ == Map::<(Currency, Currency), u32>::empty(),
            bank.wf(),
    {
        let bank = Bank { table: HashMap::new() };
        assert(bank@ =~= Map::<(Currency, Currency), u32>::empty());
        bank
    }

    /// Registers `rate` for converting amounts in `from` into amounts in `to`,
    /// replacing any rate registered for that direction before. The opposite
    /// direction is left as it was.
    ///
    /// A zero rate is refused and the table stays unchanged.
    pub fn add_rate(&mut self, from: Currency, to: Currency, rate: u32) -> (result: Result<
        (),
        RateError,
    >)
        requires
            old(self).wf(),
        ensures
            final(self).wf(),
            rate > 0 ==> result == Ok::<(), RateError>(()) && final(self)@ == old(self)@.insert(
                (from, to),
                rate,
            ),
            rate == 0 ==> result == Err::<(), RateError>(RateError::NonPositive) && final(self)@
                == old(self)@,
    {
        if rate == 0 {
            return Err(RateError::NonPositive);
        }
        let key = slot_of(from, to);
        self.table.insert(key, rate);
        assert(self@ =~= old(self)@.insert((from, to), rate));
        Ok(())
    }

    /// The rate for converting amounts in `from` into amounts in `to`: 1 when
    /// the two are the same currency or when no rate was registered for the
    /// pair, the registered rate otherwise.
    pub fn get_rate(&self, from: Currency, to: Currency) -> (rate: u32)
        requires
            self.wf(),
        ensures
            rate == rate_between(self@, from, to),
            rate >= 1,
    {
        if from == to {
            return 1;
        }
        let key = slot_of(from, to);
        match self.table.get(&key) {
            Some(rate) => {
                assert(self@.contains_key((from, to)));
                *rate
            },
            None => 1,
        }
    }

    /// Reduces `source` to a single money value in `currency` at this bank's
    /// rates. This is the entry point for evaluation; it relies on nothing but
    /// what every [`Expression`] promises.
    pub fn reduced<T: Expression>(&self, source: T, currency: Currency) -> (money: Money)
        requires
            self.wf(),
            source.amount_in(self@, currency) <= u32::MAX,
        ensures
            money.currency == currency,
            money.amount == source.amount_in(self@, currency),
    {
        source.reduced(self, currency)
    }
}

} // verus!
