//! Trusted boundary to the pseudorandom number generator.

use vstd::prelude::*;

verus! {

#[verifier::external_type_specification]
#[verifier::external_body]
pub struct ExStdRng(rand::rngs::StdRng);

/// Relies on rand's `Rng::gen_range` over an inclusive integer range: the
/// sample lies within the range. The call panics only on an empty range,
/// which the precondition rules out. Nothing more is assumed of the value.
#[verifier::external_body]
pub(crate) fn sample_inclusive(rng: &mut rand::rngs::StdRng, lo: i64, hi: i64) -> (r: i64)
    requires
        lo <= hi,
    ensures
        lo <= r <= hi,
{
    rand::Rng::gen_range(rng, lo..=hi)
}

} // verus!
