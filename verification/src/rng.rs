use vstd::prelude::*;

use rand::Rng;

verus! {

/// The thread-local random generator of the rand crate, carried through the
/// game opaquely: nothing is assumed about the values it yields beyond what
/// each sampling wrapper states.
#[verifier::external_type_specification]
#[verifier::external_body]
pub struct ExThreadRng(rand::rngs::ThreadRng);

/// Relies on rand::thread_rng: a handle to the thread-local generator.
/// Nothing is promised of the values it will produce.
#[verifier::external_body]
pub(crate) fn fresh_rng() -> rand::rngs::ThreadRng {
    rand::thread_rng()
}

/// Relies on rand::Rng::gen_range over the half-open range `0..limit`: the
/// sample always lies below `limit`. The call panics on an empty range, so
/// `limit` must be positive.
#[verifier::external_body]
pub(crate) fn rand_below(rng: &mut rand::rngs::ThreadRng, limit: u32) -> (r: u32)
    requires
        limit >= 1,
    ensures
        r < limit,
{
    rng.gen_range(0..limit)
}

} // verus!
