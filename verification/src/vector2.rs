//! Points of the vowel space in fixed-point coordinates.

use vstd::prelude::*;

verus! {

/// Number of coordinate units that span the vowel space from one edge to the
/// opposite one.
pub const UNIT: i32 = 100_000;

/// A point of the vowel space. `x` is backness (0 front, `UNIT` back) and `y`
/// is openness (0 close, `UNIT` open), both counted in units of `1 / UNIT`.
#[derive(Clone, Copy, Debug, PartialEq, Eq, Hash, Structural)]
pub struct Vector2 {
    pub x: i32,
    pub y: i32,
}

impl Vector2 {
    /// Square of the Euclidean distance between two points.
    pub open spec fn spec_dist_sq(self, other: Vector2) -> int {
        (other.x - self.x) * (other.x - self.x) + (other.y - self.y) * (other.y - self.y)
    }

    /// Square of the Euclidean distance to `other`, exact for every pair of
    /// points.
    pub fn dist_sq(self, other: Vector2) -> (d: u128)
        ensures
            d == self.spec_dist_sq(other),
    {
        let dx: i64 = other.x as i64 - self.x as i64;
        let dy: i64 = other.y as i64 - self.y as i64;
        assert(0 <= dx * dx <= 0x1_0000_0000_0000_0000) by (nonlinear_arith)
            requires
                -0x1_0000_0000 <= dx <= 0x1_0000_0000,
        ;
        assert(0 <= dy * dy <= 0x1_0000_0000_0000_0000) by (nonlinear_arith)
            requires
                -0x1_0000_0000 <= dy <= 0x1_0000_0000,
        ;
        let sx: u128 = (dx as i128 * dx as i128) as u128;
        let sy: u128 = (dy as i128 * dy as i128) as u128;
        sx + sy
    }
}

} // verus!
