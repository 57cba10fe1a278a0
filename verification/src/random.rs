//! Random values drawn from outside crates.
use vstd::prelude::*;

verus! {

/// A random `u64`: `fastrand::u64(..)`.
///
/// Trusted: nothing is claimed of the value; any `u64` may come back.
#[verifier::external_body]
pub(crate) fn random_u64() -> u64 {
    fastrand::u64(..)
}

/// A random lowercase ASCII letter: `rand::thread_rng().gen_range('a'..='z')`.
///
/// Trusted: the letter lies in `'a'..='z'`, the range handed to `gen_range`, as rand documents
/// for an inclusive range; nothing more is claimed of it.
#[verifier::external_body]
pub(crate) fn random_lowercase() -> (c: char)
    ensures
        'a' <= c <= 'z',
{
    rand::Rng::gen_range(&mut rand::thread_rng(), 'a'..='z')
}

} // verus!
