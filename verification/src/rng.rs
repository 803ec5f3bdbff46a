//! The source of randomness: the thread-local generator of the `rand` crate.
//!
//! Nothing here is proved. Each item states what is assumed of `rand`.

use rand::rngs::ThreadRng;
use rand::Rng;
use vstd::prelude::*;

verus! {

/// `rand::rngs::ThreadRng`, a handle to the generator of the current thread.
/// Its contents are hidden: a handle is only passed on to the calls below.
#[verifier::external_type_specification]
#[verifier::external_body]
pub struct ExThreadRng(ThreadRng);

/// `rand::thread_rng` hands out a handle to the generator of the current
/// thread. Nothing is assumed of the handle.
pub assume_specification[ rand::thread_rng ]() -> (rng: ThreadRng)
;

/// `rand::Rng::gen_range` on the half-open range `low..high` of `i32`.
///
/// The range must not be empty, since `gen_range` panics on an empty range.
/// Assumed of the result: it lies in the range. Which value of the range
/// comes out is left open, so two calls may differ.
#[verifier::external_body]
pub(crate) fn gen_range_i32(rng: &mut ThreadRng, low: i32, high: i32) -> (n: i32)
    requires
        low < high,
    ensures
        low <= n < high,
{
    rng.gen_range(low..high)
}

} // verus!
