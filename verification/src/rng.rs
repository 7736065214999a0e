//! The single trusted gateway to the process-wide random generator.

use vstd::prelude::*;

verus! {

/// Relies on rand::Rng::gen_range on the thread-local generator: for a
/// nonempty inclusive integer range it returns a value inside the range.
/// Nothing more is promised of the outcome.
#[verifier::external_body]
pub(crate) fn gen_range_i64(lo: i64, hi: i64) -> (r: i64)
    requires
        lo <= hi,
    ensures
        lo <= r <= hi,
{
    rand::Rng::gen_range(&mut rand::thread_rng(), lo..=hi)
}

} // verus!
