//! Uniform random choices, drawn from the `rand` crate's thread-local
//! generator.

use vstd::prelude::*;
use rand::rngs::ThreadRng;
use rand::seq::SliceRandom;
use rand::Rng;

verus! {

/// `rand::rngs::ThreadRng`, the handle to the thread-local generator,
/// carried through as an opaque value.
#[verifier::external_type_specification]
#[verifier::external_body]
pub struct ExThreadRng(rand::rngs::ThreadRng);

/// `rand::thread_rng`. Nothing is claimed of the generator it hands out.
/// It aborts the process where the system cannot seed the generator.
#[verifier::external_body]
pub(crate) fn generator() -> ThreadRng {
    rand::thread_rng()
}

/// `SliceRandom::choose` of `rand`. Trusted: an empty list gives nothing,
/// and any other list gives one of its own items. Which one depends on the
/// generator, so no more is said.
#[verifier::external_body]
pub(crate) fn pick<T: Copy>(items: &Vec<T>, rng: &mut ThreadRng) -> (r: Option<T>)
    ensures
        r is Some <==> items@.len() > 0,
        r matches Some(item) ==> items@.contains(item),
{
    items.choose(rng).copied()
}

/// `Rng::gen_range` of `rand`. Trusted: the number lies in `low..high`, the
/// upper end excluded. `gen_range` panics on an empty range, which the
/// precondition leaves out.
#[verifier::external_body]
pub(crate) fn roll(rng: &mut ThreadRng, low: i32, high: i32) -> (r: i32)
    requires
        low < high,
    ensures
        low <= r < high,
{
    rng.gen_range(low, high)
}

} // verus!
