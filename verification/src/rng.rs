//! The library's single source of randomness: one trusted wrapper around the
//! process-global generator of the `rand` crate.

use rand::Rng;
use vstd::prelude::*;

verus! {

/// Relies on `rand::Rng::gen_range` over `rand::thread_rng()`: the draw is
/// uniform in the half-open range `lo..hi`, and the call panics only when
/// that range is empty. Nothing more is assumed of the draw: no caller may
/// rely on which value in the range comes back.
#[verifier::external_body]
pub(crate) fn draw_in_range(lo: i32, hi: i32) -> (r: i32)
    requires
        lo < hi,
    ensures
        lo <= r < hi,
{
    rand::thread_rng().gen_range(lo..hi)
}

} // verus!
