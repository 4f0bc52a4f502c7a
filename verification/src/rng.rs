use rand::Rng;
use vstd::prelude::*;

verus! {

/// Relies on rand::Rng::gen_range over the half-open range `low..high`: it
/// returns a value of that range, drawn uniformly, and panics only when the
/// range is empty, which the precondition rules out. Nothing beyond
/// membership is claimed: two calls with the same bounds may differ.
#[verifier::external_body]
pub(crate) fn random_in_range(low: i32, high: i32) -> (r: i32)
    requires
        low < high,
    ensures
        low <= r < high,
{
    rand::thread_rng().gen_range(low..high)
}

} // verus!
