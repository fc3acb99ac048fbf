//! Shared numeric helpers.

use vstd::prelude::*;

verus! {

use crate::fixed::Fx;
use crate::fixed::fabs;
use crate::fixed::fsub;

/// Comparison tolerance in fixed-point bits: one quantum, the
/// smallest width the scalar can resolve.
pub const EPSILON_BITS: i64 = 1;

/// Whether two scalars agree within the comparison tolerance.
pub fn is_equal(a: Fx, b: Fx) -> (r: bool)
    ensures
        r == (fabs(fsub(a@, b@)) < EPSILON_BITS),
{
    a.sub(b).abs().lt(Fx::from_bits(EPSILON_BITS))
}

} // verus!
