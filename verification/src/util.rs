//! Small helpers: random identifiers.

use rand::seq::IteratorRandom;
use vstd::prelude::*;

verus! {

/// An ASCII letter, the alphabet random identifiers are drawn from.
pub open spec fn is_ascii_letter(c: char) -> bool {
    (65 <= c as int && c as int <= 90) || (97 <= c as int && c as int <= 122)
}

/// Relies on rand's IteratorRandom::choose over a non-empty iterator of
/// letters: each draw is one of them, so the result is `length` ASCII letters.
#[verifier::external_body]
pub fn get_random_string(length: u8) -> (r: String)
    ensures
        r@.len() == length as nat,
        forall|i: int| 0 <= i < r@.len() ==> is_ascii_letter(#[trigger] r@[i]),
{
    let letters = "ABCDEFGHIJKLMNOPQRSTUVWXYZabcdefghijklmnopqrstuvwxyz".chars();
    (0..length)
        .map(|_| letters.clone().choose(&mut rand::thread_rng()).unwrap())
        .collect()
}

} // verus!
