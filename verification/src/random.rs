//! Chance: fair coin flips from the thread-local generator of `rand`, and
//! the random orientation of a vector.

use vstd::prelude::*;
use rand::Rng;
use crate::fixed::saturated;
use crate::fixed::negate;
use crate::geometry::Pair;
use crate::geometry::Vector;

verus! {

/// `rand::rngs::ThreadRng`, the handle to a thread's generator. Nothing
/// inside it is visible to Verus.
#[verifier::external_type_specification]
#[verifier::external_body]
pub struct ExThreadRng(rand::rngs::ThreadRng);

/// `rand::thread_rng` hands out the calling thread's generator, which the
/// operating system seeds on first use. Nothing is claimed of the handle. The
/// call panics where the operating system cannot provide a seed; nothing here
/// rules that out.
pub assume_specification[ rand::thread_rng ]() -> (rng: rand::rngs::ThreadRng);

/// `Rng::gen_ratio(1, 2)`: true with one chance in two, the distribution that
/// `Rng::gen_bool` has at one half. The numerator is not above the
/// denominator and the denominator is not zero, so the call does not panic.
/// The outcome is a matter of chance: nothing is claimed of it.
#[verifier::external_body]
pub(crate) fn gen_ratio_half(rng: &mut rand::rngs::ThreadRng) -> (heads: bool) {
    rng.gen_ratio(1, 2)
}

/// `magnitude` where `positive`, else its negation as far as it can be
/// stored.
pub open spec fn signed(positive: bool, magnitude: int) -> int {
    if positive {
        magnitude
    } else {
        saturated(-magnitude)
    }
}

/// The vector `(±x, ±y)` with the signs that the two flags choose.
pub open spec fn oriented(x_positive: bool, y_positive: bool, x: int, y: int) -> Pair {
    Pair { x: signed(x_positive, x), y: signed(y_positive, y) }
}

/// Gives `magnitude` the sign that `positive` chooses.
pub fn with_sign(positive: bool, magnitude: i64) -> (r: i64)
    ensures
        r == signed(positive, magnitude as int),
{
    if positive {
        magnitude
    } else {
        negate(magnitude)
    }
}

/// Builds `(±x, ±y)` from two sign choices.
pub fn orient(x_positive: bool, y_positive: bool, x: i64, y: i64) -> (v: Vector)
    ensures
        v@ == oriented(x_positive, y_positive, x as int, y as int),
{
    Vector { x: with_sign(x_positive, x), y: with_sign(y_positive, y) }
}

/// Overwrites `vec` with `(±x, ±y)`, each sign chosen by a fair coin flip of
/// its own.
pub fn randomize_vec(vec: &mut Vector, x: i64, y: i64)
    ensures
        exists|x_positive: bool, y_positive: bool|
            final(vec)@ == #[trigger] oriented(x_positive, y_positive, x as int, y as int),
{
    let mut rng = rand::thread_rng();
    let x_positive = gen_ratio_half(&mut rng);
    let y_positive = gen_ratio_half(&mut rng);
    *vec = orient(x_positive, y_positive, x, y);
}

} // verus!
