use vstd::prelude::*;

verus! {

/// Calls `fastrand::u8(..)`: a random byte from the thread-local generator.
/// Any value can come back, so nothing is claimed of it.
#[verifier::external_body]
pub(crate) fn random_byte() -> (b: u8) {
    fastrand::u8(..)
}

/// Calls `fastrand::usize(lo..=hi)`: a random value in the inclusive range.
/// Claims only that the value lies in `lo..=hi`; the call panics on an empty
/// range, which `requires` leaves out.
#[verifier::external_body]
pub(crate) fn random_usize_in(lo: usize, hi: usize) -> (n: usize)
    requires
        lo <= hi,
    ensures
        lo <= n <= hi,
{
    fastrand::usize(lo..=hi)
}

/// Calls `fastrand::u16(..end)`: a random value below `end`. Claims only
/// that the value is below `end`; the call panics when `end` is zero, which
/// `requires` leaves out.
#[verifier::external_body]
pub(crate) fn random_u16_below(end: u16) -> (n: u16)
    requires
        end > 0,
    ensures
        n < end,
{
    fastrand::u16(..end)
}

} // verus!
