//! Fingerprints of keystroke sequences, by which an entered PIN is compared
//! with the one a card expects. A fingerprint is a 64-bit digest for equality
//! tests; it is no security primitive.

use std::collections::hash_map::DefaultHasher;
use std::hash::Hash;
use std::hash::Hasher;
use vstd::prelude::*;
use vstd::std_specs::hash::DefaultHasherAdditionalSpecFns;
use crate::keypad::Key;

verus! {

/// The modulus that bounds a digit before it is digested.
pub const MOD: u64 = 2004010501;

/// What a default hasher has absorbed once the `Hash` impl of `u64` has fed
/// `value` into a hasher that had absorbed `before`. The standard library
/// fixes it for a given build; nothing else is claimed of it.
pub uninterp spec fn absorbed_u64(before: Seq<Seq<u8>>, value: u64) -> Seq<Seq<u8>>;

/// Calls `<u64 as Hash>::hash` on a `DefaultHasher`. The contract claims that
/// what the hasher has absorbed afterwards depends only on what it had
/// absorbed before and on the value fed in.
#[verifier::external_body]
fn feed_u64(value: u64, hasher: &mut DefaultHasher)
    ensures
        final(hasher)@ == absorbed_u64(old(hasher)@, value),
{
    value.hash(hasher);
}

/// The digest of one bounded number: what a fresh default hasher returns
/// after that number alone has been fed into it.
pub open spec fn digest(value: u64) -> u64 {
    DefaultHasher::spec_finish(absorbed_u64(Seq::empty(), value))
}

/// Whether a sequence of keys has a fingerprint: it is empty, or its first
/// key is a digit.
pub open spec fn has_fingerprint(keys: Seq<Key>) -> bool {
    keys.len() > 0 ==> keys[0].digit_value().is_some()
}

/// The fingerprint of a sequence of keys: zero for the empty sequence,
/// otherwise the digest of the first key's digit reduced modulo `MOD`. Only
/// the first key takes part.
pub open spec fn fingerprint(keys: Seq<Key>) -> u64
    recommends
        has_fingerprint(keys),
{
    if keys.len() == 0 {
        0
    } else {
        digest((keys[0].digit_value().unwrap() % (MOD as nat)) as u64)
    }
}

/// The fingerprint is a function of the keys: sequences that hold the same
/// keys at the same places have the same fingerprint.
pub proof fn law_same_keys_same_fingerprint(first: Seq<Key>, second: Seq<Key>)
    requires
        first.len() == second.len(),
        forall|i: int| 0 <= i < first.len() ==> first[i] == second[i],
    ensures
        fingerprint(first) == fingerprint(second),
{
    assert(first =~= second);
}

/// Nothing keyed has fingerprint zero; otherwise the first key alone decides.
pub proof fn law_fingerprint_reads_first_key_only(first: Seq<Key>, second: Seq<Key>)
    ensures
        first.len() == 0 ==> fingerprint(first) == 0,
        first.len() > 0 && second.len() > 0 && first[0] == second[0] ==> fingerprint(first)
            == fingerprint(second),
{
}

/// Computes the fingerprint of `arr`. A first key without a digit leaves
/// nothing to digest, so `arr` must not start with `Enter`; `try_hash` takes
/// any sequence.
pub fn hash(arr: &Vec<Key>) -> (fp: u64)
    requires
        has_fingerprint(arr@),
    ensures
        fp == fingerprint(arr@),
{
    if arr.len() == 0 {
        0
    } else {
        match arr[0].digit() {
            Some(digit) => {
                let num: u64 = digit % MOD;
                let mut hasher = DefaultHasher::new();
                feed_u64(num, &mut hasher);
                hasher.finish()
            },
            None => vstd::pervasive::unreached(),
        }
    }
}

/// Computes the fingerprint of `arr` where it has one, and `None` where `arr`
/// starts with `Enter`.
pub fn try_hash(arr: &Vec<Key>) -> (fp: Option<u64>)
    ensures
        fp == if has_fingerprint(arr@) {
            Some(fingerprint(arr@))
        } else {
            None
        },
{
    if arr.len() > 0 && arr[0].digit().is_none() {
        None
    } else {
        Some(hash(arr))
    }
}

} // verus!
