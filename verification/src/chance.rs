//! The random source.
use vstd::prelude::*;
use rand::rngs::StdRng;
use rand::Rng;

verus! {

/// The random source: `rand`'s standard generator, carried through opaquely.
#[verifier::external_type_specification]
#[verifier::external_body]
pub struct ExStdRng(StdRng);

/// Calls `rand::Rng::gen_range` on the half-open range `low..high` of `i64`.
/// Trusted: the value drawn lies in that range. Which value comes is left
/// open, and so is the state of the generator afterwards. The outside
/// function panics on an empty range, which the precondition rules out.
#[verifier::external_body]
pub(crate) fn draw(rng: &mut StdRng, low: i64, high: i64) -> (r: i64)
    requires
        low < high,
    ensures
        low <= r < high,
{
    rng.gen_range(low..high)
}

/// A random index into a collection of `len` items.
pub fn draw_index(rng: &mut StdRng, len: usize) -> (i: usize)
    requires
        len > 0,
    ensures
        i < len,
{
    let bound: i64 = index_bound(len);
    let drawn: i64 = draw(rng, 0, bound);
    index_of_draw(drawn, len)
}

/// The bound below which the number that picks one of `len` items is drawn:
/// `len` itself, or the largest `i64` where `len` lies beyond it.
pub open spec fn spec_index_bound(len: usize) -> i64 {
    if len > i64::MAX {
        i64::MAX
    } else {
        len as i64
    }
}

/// The bound below which the number that picks one of `len` items is drawn.
#[verifier::when_used_as_spec(spec_index_bound)]
pub fn index_bound(len: usize) -> (bound: i64)
    ensures
        bound == spec_index_bound(len),
{
    let wide: u64 = len as u64;
    if wide > 0x7fff_ffff_ffff_ffff {
        0x7fff_ffff_ffff_ffff
    } else {
        wide as i64
    }
}

/// The index that a number drawn below the bound stands for: the number
/// itself.
pub fn index_of_draw(drawn: i64, len: usize) -> (i: usize)
    requires
        0 <= drawn < index_bound(len),
    ensures
        i == drawn,
        i < len,
{
    drawn as usize
}

} // verus!
