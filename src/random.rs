use vstd::prelude::*;
use rand::Rng;

verus! {

/// Relies on rand's `Rng::gen_range` on `thread_rng()`: a uniform draw from
/// `low..high`, which panics on an empty range. (`thread_rng` itself panics
/// only where the operating system cannot seed it.)
#[verifier::external_body]
pub(crate) fn draw_in(low: i64, high: i64) -> (r: i64)
    requires
        low < high,
    ensures
        low <= r < high,
{
    rand::thread_rng().gen_range(low..high)
}

} // verus!
