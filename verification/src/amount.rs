//! Amounts of cash as the keypad spells them: the decimal value of a run of
//! keys, the number of digits of a balance, and the rule that decides whether
//! a keyed amount may leave the machine.

use vstd::prelude::*;
use crate::keypad::Key;

verus! {

/// The number that a run of keys spells in base ten, most significant digit
/// first. The empty run spells zero; a run that holds `Enter` spells nothing.
pub open spec fn spelled_amount(keys: Seq<Key>) -> Option<nat>
    decreases keys.len(),
{
    if keys.len() == 0 {
        Some(0)
    } else {
        match (spelled_amount(keys.drop_last()), keys.last().digit_value()) {
            (Some(higher), Some(digit)) => Some(10 * higher + digit),
            _ => None,
        }
    }
}

/// How many decimal digits it takes to write `n`; zero is written with one.
pub open spec fn decimal_digits(n: nat) -> nat
    decreases n,
{
    if n < 10 {
        1
    } else {
        1 + decimal_digits(n / 10)
    }
}

/// The amount that the machine hands out when `register` is confirmed with
/// `cash_inside` in the machine: the number the register spells, provided the
/// register is no longer than the balance has digits and the number does not
/// exceed the balance. `None` where nothing is handed out.
pub open spec fn withdrawable(cash_inside: nat, register: Seq<Key>) -> Option<nat> {
    match spelled_amount(register) {
        Some(amount) => if register.len() <= decimal_digits(cash_inside) && amount
            <= cash_inside {
            Some(amount)
        } else {
            None
        },
        None => None,
    }
}

/// A run of keys spells at least what any of its prefixes spells, and spells
/// nothing once a prefix spells nothing.
pub proof fn law_prefix_spells_no_more(keys: Seq<Key>, len: int)
    requires
        0 <= len <= keys.len(),
    ensures
        spelled_amount(keys) matches Some(whole) ==> (spelled_amount(keys.take(len)) matches Some(
            part,
        ) && part <= whole),
    decreases keys.len(),
{
    if len == keys.len() {
        assert(keys.take(len) =~= keys);
    } else {
        assert(keys.drop_last().take(len) =~= keys.take(len));
        law_prefix_spells_no_more(keys.drop_last(), len);
    }
}

/// Spelling one key more: ten times what came before, plus the new digit.
proof fn lemma_spell_one_more(keys: Seq<Key>, len: int)
    requires
        0 <= len < keys.len(),
    ensures
        spelled_amount(keys.take(len + 1)) == match (
            spelled_amount(keys.take(len)),
            keys[len].digit_value(),
        ) {
            (Some(higher), Some(digit)) => Some(10 * higher + digit),
            _ => None,
        },
{
    let longer = keys.take(len + 1);
    assert(longer.drop_last() =~= keys.take(len));
    assert(longer.last() == keys[len]);
}

/// Whether every key of the run is a digit key.
pub open spec fn all_digits(keys: Seq<Key>) -> bool {
    forall|i: int| 0 <= i < keys.len() ==> (#[trigger] keys[i]).digit_value().is_some()
}

/// A run of keys spells a number exactly when all its keys are digits.
pub proof fn law_digits_spell_a_number(keys: Seq<Key>)
    ensures
        spelled_amount(keys).is_some() == all_digits(keys),
    decreases keys.len(),
{
    if keys.len() > 0 {
        let front = keys.drop_last();
        law_digits_spell_a_number(front);
        if all_digits(keys) {
            assert forall|i: int| 0 <= i < front.len() implies (#[trigger] front[i])
                .digit_value().is_some() by {
                assert(front[i] == keys[i]);
            }
            assert(keys[keys.len() - 1].digit_value().is_some());
        }
        if spelled_amount(keys).is_some() {
            assert forall|i: int| 0 <= i < keys.len() implies (#[trigger] keys[i])
                .digit_value().is_some() by {
                if i < front.len() {
                    assert(front[i] == keys[i]);
                }
            }
        }
    }
}

/// A number is written with no fewer digits than a smaller one.
pub proof fn law_decimal_digits_grow(smaller: nat, larger: nat)
    requires
        smaller <= larger,
    ensures
        decimal_digits(smaller) <= decimal_digits(larger),
    decreases larger,
{
    if smaller >= 10 {
        law_decimal_digits_grow(smaller / 10, larger / 10);
    }
}

/// The keypad has no zero, so a number spelled with it has as many decimal
/// digits as keys were pressed, and is positive.
pub proof fn law_spelled_amount_has_one_digit_per_key(keys: Seq<Key>)
    requires
        keys.len() > 0,
    ensures
        spelled_amount(keys) matches Some(amount) ==> amount > 0 && decimal_digits(amount)
            == keys.len(),
    decreases keys.len(),
{
    if let Some(amount) = spelled_amount(keys) {
        let front = keys.drop_last();
        let higher = spelled_amount(front).unwrap();
        let digit = keys.last().digit_value().unwrap();
        assert(amount == 10 * higher + digit);
        assert(1 <= digit <= 4);
        if front.len() == 0 {
            assert(higher == 0);
        } else {
            law_spelled_amount_has_one_digit_per_key(front);
            assert(amount / 10 == higher);
        }
    }
}

/// The length guard refuses nothing that the balance would allow: a spelled
/// amount within the balance never has more keys than the balance has digits.
pub proof fn law_amount_within_balance_passes_length_guard(cash_inside: nat, register: Seq<Key>)
    ensures
        withdrawable(cash_inside, register) == match spelled_amount(register) {
            Some(amount) => if amount <= cash_inside {
                Some(amount)
            } else {
                None
            },
            None => None,
        },
{
    if let Some(amount) = spelled_amount(register) {
        if amount <= cash_inside && register.len() > 0 {
            law_spelled_amount_has_one_digit_per_key(register);
            law_decimal_digits_grow(amount, cash_inside);
        }
    }
}

/// A 64-bit balance is written with twenty digits at most.
pub proof fn law_u64_has_at_most_twenty_digits(n: u64)
    ensures
        1 <= decimal_digits(n as nat) <= 20,
{
    reveal_with_fuel(decimal_digits, 21);
}

/// Counts the decimal digits of `n`.
pub fn count_decimal_digits(n: u64) -> (count: u64)
    ensures
        count == decimal_digits(n as nat),
        1 <= count <= 20,
{
    proof {
        law_u64_has_at_most_twenty_digits(n);
    }
    let mut count: u64 = 1;
    let mut rest: u64 = n;
    while rest >= 10
        invariant
            count + decimal_digits(rest as nat) == 1 + decimal_digits(n as nat),
            count + rest <= n + 1,
        decreases rest,
    {
        rest = rest / 10;
        count = count + 1;
    }
    count
}

/// Reads the register as a withdrawal request against `cash_inside`, and
/// returns the amount to hand out, if any.
pub fn withdrawal_amount(register: &Vec<Key>, cash_inside: u64) -> (amount: Option<u64>)
    ensures
        amount == match withdrawable(cash_inside as nat, register@) {
            Some(granted) => Some(granted as u64),
            None => None,
        },
{
    let digits: u64 = count_decimal_digits(cash_inside);
    if register.len() as u64 > digits {
        return None;
    }
    let mut amount: u64 = 0;
    let mut i: usize = 0;
    while i < register.len()
        invariant
            i <= register.len(),
            spelled_amount(register@.take(i as int)) == Some(amount as nat),
            amount <= cash_inside,
        decreases register.len() - i,
    {
        proof {
            lemma_spell_one_more(register@, i as int);
            law_prefix_spells_no_more(register@, i + 1);
        }
        match register[i].digit() {
            None => {
                return None;
            },
            Some(digit) => {
                let next: u128 = amount as u128 * 10 + digit as u128;
                if next > cash_inside as u128 {
                    return None;
                }
                amount = next as u64;
            },
        }
        i = i + 1;
    }
    assert(register@.take(i as int) =~= register@);
    Some(amount)
}

} // verus!
