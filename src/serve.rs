use vstd::prelude::*;

use rand::rngs::StdRng;
use rand::Rng;

verus! {

/// rand's seedable generator, carried through unopened to the serve draw.
#[verifier::external_type_specification]
#[verifier::external_body]
pub struct ExStdRng(StdRng);

/// Relies on `rand::Rng::gen_range` over an integer range `low..high`: the
/// value drawn lies in `[low, high)`; the call panics only on an empty range.
#[verifier::external_body]
pub(crate) fn draw_in_range(rng: &mut StdRng, low: i64, high: i64) -> (r: i64)
    requires
        low < high,
    ensures
        low <= r < high,
{
    rng.gen_range(low..high)
}

} // verus!
