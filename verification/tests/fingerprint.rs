use std::collections::hash_map::DefaultHasher;
use std::hash::{Hash, Hasher};

use state_machine_atm::fingerprint::{hash, try_hash, MOD};
use state_machine_atm::keypad::Key;

fn std_digest(value: u64) -> u64 {
    let mut hasher = DefaultHasher::new();
    value.hash(&mut hasher);
    hasher.finish()
}

#[test]
fn test_hash_enum_vec() {
    let input: Vec<Key> = vec![Key::One, Key::Two, Key::Three, Key::Four];

    let hash1 = hash(&input);
    let hash2 = hash(&input);

    assert_eq!(hash1, hash2);
}

#[test]
fn modulus_is_the_fixed_constant() {
    assert_eq!(MOD, 2004010501);
}

#[test]
fn hash_of_nothing_is_zero() {
    assert_eq!(hash(&Vec::new()), 0);
    assert_eq!(try_hash(&Vec::new()), Some(0));
}

#[test]
fn hash_is_the_default_digest_of_the_first_digit() {
    assert_eq!(hash(&vec![Key::One]), std_digest(1));
    assert_eq!(hash(&vec![Key::Two]), std_digest(2));
    assert_eq!(hash(&vec![Key::Three]), std_digest(3));
    assert_eq!(hash(&vec![Key::Four]), std_digest(4));
}

#[test]
fn hash_differs_from_the_number_fed_in() {
    assert_ne!(hash(&vec![Key::One]), 1);
    assert_ne!(hash(&vec![Key::One]), 0);
    assert_ne!(hash(&vec![Key::One]), hash(&vec![Key::Two]));
    assert_ne!(hash(&vec![Key::One]), std_digest(0));
}

#[test]
fn hash_reads_the_first_key_only() {
    let pin = vec![Key::One, Key::Two, Key::Three, Key::Four];
    assert_eq!(hash(&pin), hash(&vec![Key::One]));
    assert_eq!(hash(&pin), hash(&vec![Key::One, Key::One, Key::Four]));
    assert_eq!(hash(&pin), hash(&vec![Key::One, Key::Enter]));
    assert_ne!(hash(&pin), hash(&vec![Key::Four, Key::Three, Key::Two, Key::One]));
}

#[test]
fn hash_of_equal_sequences_is_equal() {
    let first = vec![Key::Three, Key::One];
    let second = vec![Key::Three, Key::One];
    assert_eq!(hash(&first), hash(&second));
    assert_eq!(hash(&first), hash(&first.clone()));
}

#[test]
fn try_hash_agrees_with_hash_on_digit_keys() {
    let pin = vec![Key::Four, Key::Two];
    assert_eq!(try_hash(&pin), Some(hash(&pin)));
    assert_eq!(try_hash(&pin), Some(std_digest(4)));
}

#[test]
fn try_hash_refuses_a_leading_enter() {
    assert_eq!(try_hash(&vec![Key::Enter]), None);
    assert_eq!(try_hash(&vec![Key::Enter, Key::One]), None);
}
