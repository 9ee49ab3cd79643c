//! The bounce budget of the recursive radiance integrator.
use vstd::prelude::*;

verus! {

/// Most bounces a ray from the camera may take.
pub const MAX_DEPTH: i32 = 100;

/// Bounce budget left for the continuation of a ray traced with `depth`
/// bounces left: `None` when the budget is spent, in which case the ray
/// contributes black whatever the scene holds, else one bounce fewer.
pub fn remaining_depth(depth: i32) -> (r: Option<i32>)
    ensures
        r is None <==> depth <= 0,
        r matches Some(d) ==> d == depth - 1 && 0 <= d,
{
    if depth <= 0 {
        None
    } else {
        Some(depth - 1)
    }
}

} // verus!
