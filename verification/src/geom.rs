//! Small arithmetic helpers over screen coordinates.

use vstd::prelude::*;

verus! {

/// Absolute value of a coordinate.
pub open spec fn abs(x: int) -> int {
    if x >= 0 {
        x
    } else {
        -x
    }
}

/// Computes [`abs`] over the full `i32` range (the result can exceed
/// `i32::MAX` by one, hence the wider return type).
pub fn abs_i32(x: i32) -> (r: i64)
    ensures
        r == abs(x as int),
{
    if x >= 0 {
        x as i64
    } else {
        -(x as i64)
    }
}

/// Distance between a coordinate and the gun's coordinate.
pub open spec fn dist(x: int, gun_x: int) -> int {
    abs(x - gun_x)
}

/// Computes [`dist`] without overflow by widening first.
pub fn dist_i32(x: i32, gun_x: i32) -> (r: i64)
    ensures
        r == dist(x as int, gun_x as int),
{
    let wide: i64 = (x as i64) - (gun_x as i64);
    if wide >= 0 {
        wide
    } else {
        -wide
    }
}

} // verus!
