use state_machine_atm::amount::{count_decimal_digits, withdrawal_amount};
use state_machine_atm::keypad::Key;

#[test]
fn each_key_has_its_digit() {
    assert_eq!(Key::One.digit(), Some(1));
    assert_eq!(Key::Two.digit(), Some(2));
    assert_eq!(Key::Three.digit(), Some(3));
    assert_eq!(Key::Four.digit(), Some(4));
    assert_eq!(Key::Enter.digit(), None);
}

#[test]
fn decimal_digits_are_counted() {
    assert_eq!(count_decimal_digits(0), 1);
    assert_eq!(count_decimal_digits(1), 1);
    assert_eq!(count_decimal_digits(9), 1);
    assert_eq!(count_decimal_digits(10), 2);
    assert_eq!(count_decimal_digits(99), 2);
    assert_eq!(count_decimal_digits(100), 3);
    assert_eq!(count_decimal_digits(2004010501), 10);
    assert_eq!(count_decimal_digits(9_999_999_999_999_999_999), 19);
    assert_eq!(count_decimal_digits(10_000_000_000_000_000_000), 20);
    assert_eq!(count_decimal_digits(u64::MAX), 20);
}

#[test]
fn register_is_read_most_significant_digit_first() {
    assert_eq!(withdrawal_amount(&vec![Key::One, Key::Two], 100), Some(12));
    assert_eq!(withdrawal_amount(&vec![Key::Two, Key::One], 100), Some(21));
    assert_eq!(
        withdrawal_amount(&vec![Key::One, Key::Two, Key::Three, Key::Four], 5000),
        Some(1234)
    );
    assert_eq!(
        withdrawal_amount(&vec![Key::Four, Key::Three, Key::Two, Key::One], 5000),
        Some(4321)
    );
}

#[test]
fn empty_register_asks_for_nothing() {
    assert_eq!(withdrawal_amount(&Vec::new(), 10), Some(0));
    assert_eq!(withdrawal_amount(&Vec::new(), 0), Some(0));
}

#[test]
fn amount_up_to_the_balance_is_granted() {
    assert_eq!(withdrawal_amount(&vec![Key::One], 10), Some(1));
    assert_eq!(withdrawal_amount(&vec![Key::Four], 4), Some(4));
    assert_eq!(withdrawal_amount(&vec![Key::Four], 5), Some(4));
    assert_eq!(withdrawal_amount(&vec![Key::One, Key::Four], 14), Some(14));
}

#[test]
fn amount_over_the_balance_is_refused() {
    assert_eq!(withdrawal_amount(&vec![Key::One, Key::Four], 10), None);
    assert_eq!(withdrawal_amount(&vec![Key::One, Key::Four], 13), None);
    assert_eq!(withdrawal_amount(&vec![Key::Four], 3), None);
    assert_eq!(withdrawal_amount(&vec![Key::One], 0), None);
}

#[test]
fn register_longer_than_the_balance_is_refused() {
    assert_eq!(withdrawal_amount(&vec![Key::One, Key::One, Key::One], 99), None);
    assert_eq!(withdrawal_amount(&vec![Key::One; 21], u64::MAX), None);
    assert_eq!(withdrawal_amount(&vec![Key::One; 500], u64::MAX), None);
}

#[test]
fn register_with_enter_spells_no_amount() {
    assert_eq!(withdrawal_amount(&vec![Key::Enter], 10), None);
    assert_eq!(withdrawal_amount(&vec![Key::One, Key::Enter], 100), None);
    assert_eq!(withdrawal_amount(&vec![Key::Enter, Key::One], 100), None);
}

#[test]
fn twenty_digit_amounts_do_not_wrap() {
    // 18446744073709551615 is the largest balance; 44444444444444444444 does
    // not fit in 64 bits and must be refused, not wrapped.
    assert_eq!(withdrawal_amount(&vec![Key::Four; 20], u64::MAX), None);
    assert_eq!(withdrawal_amount(&vec![Key::Two; 20], u64::MAX), None);
    assert_eq!(
        withdrawal_amount(&vec![Key::One; 20], u64::MAX),
        Some(11_111_111_111_111_111_111)
    );
    let mut request = vec![Key::One];
    request.extend(vec![Key::Four; 19]);
    assert_eq!(
        withdrawal_amount(&request, u64::MAX),
        Some(14_444_444_444_444_444_444)
    );
    assert_eq!(
        withdrawal_amount(&vec![Key::Four; 19], u64::MAX),
        Some(4_444_444_444_444_444_444)
    );
}
