//! Two-dimensional fixed-point vectors.
//!
//! One world unit (a pixel of the level) is [`UNITS_PER_PIXEL`] steps, so that
//! `1500` stands for one and a half pixels.  Positions, velocities (steps per
//! second) and distances all use this scale.  Components are `i32`, which
//! leaves room for levels two million pixels wide; intermediate results are
//! computed in wider integers, so nothing here can overflow.

use vstd::prelude::*;

verus! {

/// Fixed-point steps in one world unit.
pub const UNITS_PER_PIXEL: i32 = 1000;

/// A position or velocity as the engine-facing code sees it.
#[derive(Clone, Copy, Debug, PartialEq, Eq, Hash, Structural)]
pub struct Vector2 {
    pub x: i32,
    pub y: i32,
}

/// A position as the world store keeps it in its rows.
#[derive(Clone, Copy, Debug, PartialEq, Eq, Hash, Structural)]
pub struct DbVector2 {
    pub x: i32,
    pub y: i32,
}

/// Squared Euclidean distance between two points, in squared steps.
pub open spec fn distance_squared(a: Vector2, b: Vector2) -> int {
    (a.x - b.x) * (a.x - b.x) + (a.y - b.y) * (a.y - b.y)
}

/// `|a - b|`, as a mathematical integer.
pub open spec fn abs_diff(a: int, b: int) -> int {
    if a >= b {
        a - b
    } else {
        b - a
    }
}

/// `v` if it fits an `i32`, else the nearest `i32`.
pub open spec fn clamp_i32(v: int) -> i32 {
    if v < i32::MIN {
        i32::MIN
    } else if v > i32::MAX {
        i32::MAX
    } else {
        v as i32
    }
}

/// The quotient `n / d` rounded toward zero, for a positive `d`.
pub open spec fn trunc_div(n: int, d: int) -> int {
    if n >= 0 {
        n / d
    } else {
        -((-n) / d)
    }
}

/// Rounding toward zero leaves a quotient between zero and the dividend.
pub proof fn lemma_trunc_div_bounds(n: int, d: int)
    requires
        d > 0,
    ensures
        n >= 0 ==> 0 <= trunc_div(n, d) <= n,
        n < 0 ==> n <= trunc_div(n, d) <= 0,
{
    if n >= 0 {
        assert(0 <= n / d <= n) by (nonlinear_arith)
            requires
                n >= 0,
                d > 0,
        ;
    } else {
        assert(0 <= (-n) / d <= -n) by (nonlinear_arith)
            requires
                n < 0,
                d > 0,
        ;
    }
}

/// `v` brought into the range of `i32`.
pub fn clamp_to_i32(v: i128) -> (clamped: i32)
    ensures
        clamped == clamp_i32(v as int),
{
    if v < i32::MIN as i128 {
        i32::MIN
    } else if v > i32::MAX as i128 {
        i32::MAX
    } else {
        v as i32
    }
}

/// `a * b / divisor`, rounded toward zero.  This is how a fixed-point
/// value is scaled by a fixed-point factor: the divisor is the scale of the
/// factor.
pub fn product_over(a: i64, b: i64, divisor: i64) -> (quotient: i128)
    requires
        divisor > 0,
    ensures
        quotient == trunc_div(a * b, divisor as int),
{
    assert(-0x4000_0000_0000_0000_0000_0000_0000_0000 <= a * b
        <= 0x4000_0000_0000_0000_0000_0000_0000_0000) by (nonlinear_arith)
        requires
            -0x8000_0000_0000_0000 <= a <= 0x8000_0000_0000_0000,
            -0x8000_0000_0000_0000 <= b <= 0x8000_0000_0000_0000,
    ;
    let product: i128 = (a as i128) * (b as i128);
    if product >= 0 {
        product / (divisor as i128)
    } else {
        -((-product) / (divisor as i128))
    }
}

impl Vector2 {
    pub fn new(x: i32, y: i32) -> (v: Vector2)
        ensures
            v.x == x,
            v.y == y,
    {
        Vector2 { x, y }
    }

    /// The squared distance to `other`.  Comparing squared distances with
    /// squared thresholds orders points exactly as the distances would.
    pub fn distance_squared_to(self, other: Vector2) -> (d: i128)
        ensures
            d == distance_squared(self, other),
            d >= 0,
    {
        let dx: i128 = self.x as i128 - other.x as i128;
        let dy: i128 = self.y as i128 - other.y as i128;
        assert(0 <= dx * dx <= 0x1_0000_0000 * 0x1_0000_0000) by (nonlinear_arith)
            requires
                -0x1_0000_0000 <= dx <= 0x1_0000_0000,
        ;
        assert(0 <= dy * dy <= 0x1_0000_0000 * 0x1_0000_0000) by (nonlinear_arith)
            requires
                -0x1_0000_0000 <= dy <= 0x1_0000_0000,
        ;
        dx * dx + dy * dy
    }

    /// The vertical gap `|self.y - other.y|`.
    pub fn vertical_distance_to(self, other: Vector2) -> (d: i64)
        ensures
            d == abs_diff(self.y as int, other.y as int),
    {
        let dy: i64 = self.y as i64 - other.y as i64;
        if dy >= 0 {
            dy
        } else {
            -dy
        }
    }
}

impl DbVector2 {
    pub fn new(x: i32, y: i32) -> (v: DbVector2)
        ensures
            v.x == x,
            v.y == y,
    {
        DbVector2 { x, y }
    }
}

impl Default for DbVector2 {
    fn default() -> (v: DbVector2)
        ensures
            v.x == 0,
            v.y == 0,
    {
        DbVector2 { x: 0, y: 0 }
    }
}

impl From<Vector2> for DbVector2 {
    fn from(value: Vector2) -> (v: DbVector2) {
        DbVector2 { x: value.x, y: value.y }
    }
}

impl vstd::std_specs::convert::FromSpecImpl<Vector2> for DbVector2 {
    open spec fn obeys_from_spec() -> bool {
        true
    }

    open spec fn from_spec(value: Vector2) -> DbVector2 {
        DbVector2 { x: value.x, y: value.y }
    }
}

impl From<DbVector2> for Vector2 {
    fn from(value: DbVector2) -> (v: Vector2) {
        Vector2 { x: value.x, y: value.y }
    }
}

impl vstd::std_specs::convert::FromSpecImpl<DbVector2> for Vector2 {
    open spec fn obeys_from_spec() -> bool {
        true
    }

    open spec fn from_spec(value: DbVector2) -> Vector2 {
        Vector2 { x: value.x, y: value.y }
    }
}

} // verus!
