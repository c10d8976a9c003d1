use money::{Bank, Currency, Expression, Money, Operand, Sum};

fn leaf(money: Money) -> Box<Operand> {
    Box::new(Operand::Money(money))
}

fn banks() -> Vec<Bank> {
    let empty = Bank::new();

    let mut one_way = Bank::new();
    assert_eq!(Ok(()), one_way.add_rate(Currency::CHE, Currency::USD, 2));

    let mut both_ways = Bank::new();
    assert_eq!(Ok(()), both_ways.add_rate(Currency::CHE, Currency::USD, 3));
    assert_eq!(Ok(()), both_ways.add_rate(Currency::USD, Currency::CHE, 7));
    assert_eq!(Ok(()), both_ways.add_rate(Currency::USD, Currency::USD, 11));

    vec![empty, one_way, both_ways]
}

#[test]
fn reducing_into_own_currency_is_identity() {
    for bank in banks() {
        for amount in [0, 1, 5, 1000, u32::MAX] {
            assert_eq!(Money::dollar(amount), bank.reduced(Money::dollar(amount), Currency::USD));
            assert_eq!(Money::franc(amount), bank.reduced(Money::franc(amount), Currency::CHE));
        }
    }
}

#[test]
fn times_then_reduce_in_own_currency_multiplies() {
    for bank in banks() {
        for (amount, multiplier) in [(0, 0), (0, 9), (5, 2), (7, 0), (1, u32::MAX), (65_535, 65_537)] {
            let dollars = Money::dollar(amount).times(multiplier);
            assert_eq!(Money::dollar(amount * multiplier), bank.reduced(*dollars, Currency::USD));
            let francs = Money::franc(amount).times(multiplier);
            assert_eq!(Money::franc(amount * multiplier), bank.reduced(*francs, Currency::CHE));
        }
    }
}

#[test]
fn addition_commutes_under_reduction() {
    for bank in banks() {
        for target in [Currency::USD, Currency::CHE] {
            let one_way = bank.reduced(Money::franc(9) + Money::franc(4), target);
            let other_way = bank.reduced(Money::franc(4) + Money::franc(9), target);
            assert_eq!(one_way, other_way);

            let mixed = bank.reduced(Money::dollar(9) + Money::franc(4), target);
            let mixed_back = bank.reduced(Money::franc(4) + Money::dollar(9), target);
            assert_eq!(mixed, mixed_back);
        }
    }
}

#[test]
fn francs_added_in_either_order_give_six_dollars() {
    let mut bank = Bank::new();
    assert_eq!(Ok(()), bank.add_rate(Currency::CHE, Currency::USD, 2));
    assert_eq!(Money::dollar(6), bank.reduced(Money::franc(9) + Money::franc(4), Currency::USD));
    assert_eq!(Money::dollar(6), bank.reduced(Money::franc(4) + Money::franc(9), Currency::USD));
}

#[test]
fn one_registered_direction_does_not_set_the_other() {
    let mut bank = Bank::new();
    assert_eq!(Ok(()), bank.add_rate(Currency::CHE, Currency::USD, 2));
    assert_eq!(2, bank.get_rate(Currency::CHE, Currency::USD));
    assert_eq!(1, bank.get_rate(Currency::USD, Currency::CHE));
    assert_eq!(Money::dollar(5), bank.reduced(Money::franc(10), Currency::USD));
    assert_eq!(Money::franc(10), bank.reduced(Money::dollar(10), Currency::CHE));
}

#[test]
fn scaling_a_sum_equals_summing_the_scaled_sides() {
    for bank in banks() {
        for target in [Currency::USD, Currency::CHE] {
            for multiplier in [0, 1, 2, 7] {
                let whole = Sum::new(leaf(Money::dollar(5)), leaf(Money::franc(10))).times(multiplier);
                let sides = Sum::new(
                    Box::new(Operand::Sum(*Money::dollar(5).times(multiplier))),
                    Box::new(Operand::Sum(*Money::franc(10).times(multiplier))),
                );
                assert_eq!(bank.reduced(*whole, target), bank.reduced(sides, target));
            }
        }
    }
}

#[test]
fn scaled_sum_of_five_dollars_and_ten_francs_is_twenty_dollars() {
    let mut bank = Bank::new();
    assert_eq!(Ok(()), bank.add_rate(Currency::CHE, Currency::USD, 2));
    let whole = Sum::new(leaf(Money::dollar(5)), leaf(Money::franc(10))).times(2);
    let sides = Sum::new(
        Box::new(Operand::Sum(*Money::dollar(5).times(2))),
        Box::new(Operand::Sum(*Money::franc(10).times(2))),
    );
    assert_eq!(Money::dollar(20), bank.reduced(*whole, Currency::USD));
    assert_eq!(Money::dollar(20), bank.reduced(sides, Currency::USD));
}

#[test]
fn scaling_is_not_applied_to_the_reduced_total() {
    let mut bank = Bank::new();
    assert_eq!(Ok(()), bank.add_rate(Currency::CHE, Currency::USD, 2));
    let sum = Sum::new(leaf(Money::franc(1)), leaf(Money::franc(1)));
    assert_eq!(Money::dollar(0), sum.reduced(&bank, Currency::USD));
    let product = sum.times(2);
    assert_eq!(Money::dollar(2), bank.reduced(*product, Currency::USD));
}
