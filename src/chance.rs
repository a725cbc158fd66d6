use vstd::prelude::*;

verus! {

/// Relies on rand::random (thread-local generator): any `u64` may come back.
#[verifier::external_body]
pub(crate) fn random_u64() -> (r: u64) {
    rand::random::<u64>()
}

/// Reduces a raw draw to the inclusive range `[lo, hi]`.
pub fn draw_between(draw: u64, lo: u64, hi: u64) -> (r: u64)
    requires
        lo <= hi < u64::MAX,
    ensures
        r == lo + draw % ((hi - lo + 1) as u64),
        lo <= r <= hi,
{
    lo + draw % (hi - lo + 1)
}

} // verus!
