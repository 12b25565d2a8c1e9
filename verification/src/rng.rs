//! The one source of randomness: drawing a fresh secret number.

use rand::Rng;
use vstd::prelude::*;

verus! {

/// Relies on rand::thread_rng and rand::Rng::gen_range: sampling from the
/// non-empty inclusive range 1..=100 returns a value inside that range.
#[verifier::external_body]
pub(crate) fn random_secret() -> (r: i32)
    ensures
        1 <= r <= 100,
{
    rand::thread_rng().gen_range(1..=100)
}

} // verus!
