use vstd::prelude::*;

use rand::seq::IndexedRandom;
use rand::Rng;

verus! {

/// Relies on rand's `Rng::fill` on the thread-local generator (`rand::rng()`,
/// a cryptographically secure generator): it overwrites every byte of the
/// buffer, so only the length is known.
#[verifier::external_body]
pub(crate) fn random_bytes(n: usize) -> (r: Vec<u8>)
    ensures
        r.len() == n,
{
    let mut buf = vec![0u8; n];
    rand::rng().fill(&mut buf[..]);
    buf
}

/// Relies on rand's `IndexedRandom::choose` on the thread-local generator: on
/// a non-empty slice it returns a reference to one of its elements.
#[verifier::external_body]
pub(crate) fn choose_one<T>(items: &[T]) -> (r: &T)
    requires
        items.len() > 0,
    ensures
        items@.contains(*r),
{
    items.choose(&mut rand::rng()).unwrap()
}

} // verus!
