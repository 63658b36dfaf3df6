//! Points and rectangles on a fixed-point grid.
//!
//! A coordinate counts grid steps; `UNIT` steps make one world unit. Distances
//! are compared through their squares, so every test in this module is exact.

use vstd::prelude::*;

verus! {

/// Number of grid steps in one world unit.
pub const UNIT: i32 = 1000;

/// The square of an integer.
pub open spec fn square(a: int) -> int {
    a * a
}

/// `r` is the least natural number whose square is at least `n`.
pub open spec fn is_ceil_sqrt(n: int, r: int) -> bool {
    &&& r >= 0
    &&& n <= r * r
    &&& (r == 0 || (r - 1) * (r - 1) < n)
}

/// The least natural number whose square is at least `n`.
pub open spec fn ceil_sqrt(n: int) -> int {
    choose|r: int| is_ceil_sqrt(n, r)
}

/// `d * num / den`, rounded toward zero.
pub open spec fn scale_toward_zero(d: int, num: int, den: int) -> int {
    if d >= 0 {
        (d * num) / den
    } else {
        -(((-d) * num) / den)
    }
}

/// `v` limited to the range of a coordinate.
pub open spec fn clamp_coord(v: int) -> int {
    if v < i32::MIN {
        i32::MIN as int
    } else if v > i32::MAX {
        i32::MAX as int
    } else {
        v
    }
}

/// Squares grow with their non-negative argument.
pub proof fn lemma_square_monotonic(a: int, b: int)
    requires
        0 <= a <= b,
    ensures
        a * a <= b * b,
{
    assert(a * a <= b * b) by (nonlinear_arith)
        requires
            0 <= a <= b,
    ;
}

/// Squares grow strictly with their non-negative argument.
pub proof fn lemma_square_strictly_monotonic(a: int, b: int)
    requires
        0 <= a < b,
    ensures
        a * a < b * b,
{
    assert(a * a < b * b) by (nonlinear_arith)
        requires
            0 <= a < b,
    ;
}

/// At most one number is the rounded-up square root of `n`.
pub proof fn lemma_ceil_sqrt_unique(n: int, r1: int, r2: int)
    requires
        is_ceil_sqrt(n, r1),
        is_ceil_sqrt(n, r2),
    ensures
        r1 == r2,
{
    if r1 < r2 {
        lemma_square_monotonic(r1, r2 - 1);
    } else if r2 < r1 {
        lemma_square_monotonic(r2, r1 - 1);
    }
}

/// A number that meets `is_ceil_sqrt` is the value of `ceil_sqrt`.
pub proof fn lemma_ceil_sqrt_is(n: int, r: int)
    requires
        is_ceil_sqrt(n, r),
    ensures
        ceil_sqrt(n) == r,
{
    lemma_ceil_sqrt_unique(n, r, ceil_sqrt(n));
}

/// The square root of `n`, rounded down.
pub fn isqrt_floor(n: u128) -> (r: u128)
    ensures
        r * r <= n,
        n < (r + 1) * (r + 1),
        r <= u64::MAX,
{
    let mut lo: u128 = 0;
    let mut hi: u128 = 0x1_0000_0000_0000_0000;
    assert(hi * hi > n) by (nonlinear_arith)
        requires
            hi == 0x1_0000_0000_0000_0000,
            n <= u128::MAX,
    ;
    while hi - lo > 1
        invariant
            lo < hi <= 0x1_0000_0000_0000_0000,
            lo * lo <= n,
            n < hi * hi,
        decreases hi - lo,
    {
        let mid: u128 = lo + (hi - lo) / 2;
        assert(mid * mid <= u128::MAX) by (nonlinear_arith)
            requires
                0 <= mid <= 0xFFFF_FFFF_FFFF_FFFF,
        ;
        if mid * mid <= n {
            lo = mid;
        } else {
            hi = mid;
        }
    }
    lo
}

/// The square root of `n`, rounded up.
pub fn isqrt_ceil(n: u128) -> (r: u128)
    ensures
        is_ceil_sqrt(n as int, r as int),
        r == ceil_sqrt(n as int),
        r <= 0x1_0000_0000_0000_0000,
{
    let floor: u128 = isqrt_floor(n);
    let r: u128 = if floor * floor == n {
        floor
    } else {
        floor + 1
    };
    proof {
        if floor * floor == n && floor > 0 {
            lemma_square_strictly_monotonic(floor - 1, floor as int);
        }
        lemma_ceil_sqrt_is(n as int, r as int);
    }
    r
}

/// The squared difference of two coordinates.
fn coord_gap_squared(a: i32, b: i32) -> (s: u128)
    ensures
        s == square(a - b),
        s <= 0xFFFF_FFFF * 0xFFFF_FFFF,
{
    let d: i64 = a as i64 - b as i64;
    let m: u128 = if d >= 0 {
        d as u128
    } else {
        (-d) as u128
    };
    assert(m * m <= 0xFFFF_FFFF * 0xFFFF_FFFF) by (nonlinear_arith)
        requires
            0 <= m <= 0xFFFF_FFFF,
    ;
    assert(m * m == (a - b) * (a - b)) by (nonlinear_arith)
        requires
            m == a - b || m == -(a - b),
    ;
    m * m
}

/// One coordinate moved from `from` toward `to` by `|to - from| * reach / len`,
/// rounded toward zero.
fn coord_toward(from: i32, to: i32, reach: u64, len: u128) -> (c: i32)
    requires
        0 <= reach < len,
        len <= 0x1_0000_0000_0000_0000,
    ensures
        c == from + scale_toward_zero(to - from, reach as int, len as int),
        from <= to ==> from <= c <= to,
        to <= from ==> to <= c <= from,
{
    let d: i64 = to as i64 - from as i64;
    if d >= 0 {
        let m: u128 = d as u128;
        assert(m * reach <= 0xFFFF_FFFF * 0xFFFF_FFFF_FFFF_FFFF) by (nonlinear_arith)
            requires
                0 <= m <= 0xFFFF_FFFF,
                0 <= reach <= 0xFFFF_FFFF_FFFF_FFFF,
        ;
        let q: u128 = m * (reach as u128) / len;
        assert(q <= m) by (nonlinear_arith)
            requires
                q == (m * reach) / (len as int),
                0 <= reach < len,
                0 <= m,
        ;
        (from as i64 + q as i64) as i32
    } else {
        let m: u128 = (-d) as u128;
        assert(m * reach <= 0xFFFF_FFFF * 0xFFFF_FFFF_FFFF_FFFF) by (nonlinear_arith)
            requires
                0 <= m <= 0xFFFF_FFFF,
                0 <= reach <= 0xFFFF_FFFF_FFFF_FFFF,
        ;
        let q: u128 = m * (reach as u128) / len;
        assert(q <= m) by (nonlinear_arith)
            requires
                q == (m * reach) / (len as int),
                0 <= reach < len,
                0 <= m,
        ;
        (from as i64 - q as i64) as i32
    }
}

/// `v` limited to the range of a coordinate.
fn clamp_to_coord(v: i128) -> (c: i32)
    ensures
        c == clamp_coord(v as int),
{
    if v < i32::MIN as i128 {
        i32::MIN
    } else if v > i32::MAX as i128 {
        i32::MAX
    } else {
        v as i32
    }
}

/// A point or displacement, in grid steps.
#[derive(Clone, Copy, Debug, PartialEq, Eq, Structural)]
pub struct Vec2 {
    pub x: i32,
    pub y: i32,
}

impl Vec2 {
    /// The squared distance between two points.
    pub open spec fn dist_sq(self, other: Vec2) -> int {
        square(self.x - other.x) + square(self.y - other.y)
    }

    /// The distance between two points, rounded up to whole grid steps.
    pub open spec fn dist_ceil(self, other: Vec2) -> int {
        ceil_sqrt(self.dist_sq(other))
    }

    /// Where a walker stands after one step from `self` toward `target` that
    /// covers at most `reach` grid steps: on the target if it is that near,
    /// otherwise on the way to it, each coordinate rounded back toward `self`.
    pub open spec fn spec_step_toward(self, target: Vec2, reach: int) -> Vec2 {
        let len = self.dist_ceil(target);
        if reach >= len {
            target
        } else {
            Vec2 {
                x: (self.x + scale_toward_zero(target.x - self.x, reach, len)) as i32,
                y: (self.y + scale_toward_zero(target.y - self.y, reach, len)) as i32,
            }
        }
    }

    /// `self` moved by `(dx, dy)`, each coordinate limited to its range.
    pub open spec fn spec_offset(self, dx: int, dy: int) -> Vec2 {
        Vec2 { x: clamp_coord(self.x + dx) as i32, y: clamp_coord(self.y + dy) as i32 }
    }

    /// The point with the given coordinates.
    pub fn new(x: i32, y: i32) -> (v: Vec2)
        ensures
            v == (Vec2 { x, y }),
    {
        Vec2 { x, y }
    }

    /// The origin.
    pub fn zero() -> (v: Vec2)
        ensures
            v == (Vec2 { x: 0, y: 0 }),
    {
        Vec2 { x: 0, y: 0 }
    }

    /// The squared distance between two points.
    pub fn distance_squared(self, other: Vec2) -> (d: u128)
        ensures
            d == self.dist_sq(other),
    {
        coord_gap_squared(self.x, other.x) + coord_gap_squared(self.y, other.y)
    }

    /// Whether `other` lies strictly nearer than `radius` grid steps.
    pub fn closer_than(self, other: Vec2, radius: u32) -> (b: bool)
        ensures
            b == (self.dist_sq(other) < radius * radius),
    {
        let r: u128 = radius as u128;
        assert(r * r <= 0xFFFF_FFFF * 0xFFFF_FFFF) by (nonlinear_arith)
            requires
                0 <= r <= 0xFFFF_FFFF,
        ;
        self.distance_squared(other) < r * r
    }

    /// One step from `self` toward `target` of at most `reach` grid steps.
    pub fn step_toward(self, target: Vec2, reach: u64) -> (p: Vec2)
        ensures
            p == self.spec_step_toward(target, reach as int),
    {
        let len: u128 = isqrt_ceil(self.distance_squared(target));
        if reach as u128 >= len {
            target
        } else {
            Vec2 {
                x: coord_toward(self.x, target.x, reach, len),
                y: coord_toward(self.y, target.y, reach, len),
            }
        }
    }

    /// `self` moved by `(dx, dy)`, each coordinate limited to its range.
    pub fn offset(self, dx: i64, dy: i64) -> (p: Vec2)
        ensures
            p == self.spec_offset(dx as int, dy as int),
    {
        Vec2 {
            x: clamp_to_coord(self.x as i128 + dx as i128),
            y: clamp_to_coord(self.y as i128 + dy as i128),
        }
    }
}

/// A quotient scaled by less than one lies between zero and the dividend.
pub proof fn lemma_scale_bounds(d: int, reach: int, len: int)
    requires
        0 <= reach < len,
    ensures
        d >= 0 ==> 0 <= scale_toward_zero(d, reach, len) <= d,
        d <= 0 ==> d <= scale_toward_zero(d, reach, len) <= 0,
        square(scale_toward_zero(d, reach, len)) * square(len) <= square(d) * square(reach),
{
    let m: int = if d >= 0 { d } else { -d };
    let q: int = (m * reach) / len;
    assert(0 <= q <= m && q * len <= m * reach) by (nonlinear_arith)
        requires
            q == (m * reach) / len,
            0 <= reach < len,
            0 <= m,
    ;
    assert((q * q) * (len * len) <= (m * m) * (reach * reach)) by (nonlinear_arith)
        requires
            0 <= q * len <= m * reach,
            0 <= q,
            0 < len,
            0 <= m,
            0 <= reach,
    ;
    assert(m * m == d * d) by (nonlinear_arith)
        requires
            m == d || m == -d,
    ;
    let s: int = scale_toward_zero(d, reach, len);
    assert(s * s == q * q) by (nonlinear_arith)
        requires
            s == q || s == -q,
    ;
}

/// A number between zero and another has the smaller square.
pub proof fn lemma_square_shrinks(a: int, b: int)
    requires
        (0 <= a <= b) || (b <= a <= 0),
    ensures
        0 <= square(a) <= square(b),
{
    assert(0 <= a * a <= b * b) by (nonlinear_arith)
        requires
            (0 <= a <= b) || (b <= a <= 0),
    ;
}

/// A step never carries the walker past its target: along each axis it ends
/// between where it stood and the target, so the target is no farther than
/// before.
pub proof fn lemma_step_never_overshoots(from: Vec2, target: Vec2, reach: int)
    requires
        reach >= 0,
    ensures
        ({
            let p = from.spec_step_toward(target, reach);
            &&& from.x <= target.x ==> from.x <= p.x <= target.x
            &&& target.x <= from.x ==> target.x <= p.x <= from.x
            &&& from.y <= target.y ==> from.y <= p.y <= target.y
            &&& target.y <= from.y ==> target.y <= p.y <= from.y
            &&& p.dist_sq(target) <= from.dist_sq(target)
        }),
{
    let p = from.spec_step_toward(target, reach);
    if reach < from.dist_ceil(target) {
        lemma_scale_bounds(target.x - from.x, reach, from.dist_ceil(target));
        lemma_scale_bounds(target.y - from.y, reach, from.dist_ceil(target));
    }
    lemma_square_shrinks(p.x - target.x, from.x - target.x);
    lemma_square_shrinks(p.y - target.y, from.y - target.y);
}

/// A step is never longer than the reach it was given.
pub proof fn lemma_step_within_reach(from: Vec2, target: Vec2, reach: int)
    requires
        reach >= 0,
    ensures
        from.spec_step_toward(target, reach).dist_sq(from) <= reach * reach,
{
    let n = from.dist_sq(target);
    let len = ceil_sqrt(n);
    let p = from.spec_step_toward(target, reach);
    lemma_dist_sq_symmetric(from, target);
    lemma_ceil_sqrt_exists(n);
    if reach >= len {
        lemma_square_monotonic(len, reach);
    } else {
        let dx: int = target.x - from.x;
        let dy: int = target.y - from.y;
        lemma_scale_bounds(dx, reach, len);
        lemma_scale_bounds(dy, reach, len);
        let step2: int = p.dist_sq(from);
        let l2: int = len * len;
        let r2: int = reach * reach;
        assert(step2 * l2 <= n * r2) by (nonlinear_arith)
            requires
                step2 == square(p.x - from.x) + square(p.y - from.y),
                n == square(dx) + square(dy),
                square(p.x - from.x) * l2 <= square(dx) * r2,
                square(p.y - from.y) * l2 <= square(dy) * r2,
        ;
        assert(step2 <= r2) by (nonlinear_arith)
            requires
                step2 * l2 <= n * r2,
                n <= l2,
                l2 == len * len,
                r2 == reach * reach,
                len > 0,
        ;
    }
}

/// Distance does not depend on the order of the two points.
pub proof fn lemma_dist_sq_symmetric(a: Vec2, b: Vec2)
    ensures
        a.dist_sq(b) == b.dist_sq(a),
        a.dist_sq(b) >= 0,
{
    let dx: int = a.x - b.x;
    let dy: int = a.y - b.y;
    assert(dx * dx == (-dx) * (-dx) && dx * dx >= 0) by (nonlinear_arith);
    assert(dy * dy == (-dy) * (-dy) && dy * dy >= 0) by (nonlinear_arith);
}

/// Every natural number has a rounded-up square root.
pub proof fn lemma_ceil_sqrt_exists(n: int)
    requires
        n >= 0,
    ensures
        is_ceil_sqrt(n, ceil_sqrt(n)),
    decreases n,
{
    if n == 0 {
        assert(is_ceil_sqrt(0, 0));
    } else {
        lemma_ceil_sqrt_exists(n - 1);
        let r = ceil_sqrt(n - 1);
        if n <= r * r {
            assert(is_ceil_sqrt(n, r));
        } else {
            assert(n == r * r + 1);
            assert((r + 1) * (r + 1) >= n) by (nonlinear_arith)
                requires
                    n == r * r + 1,
                    r >= 0,
            ;
            assert(is_ceil_sqrt(n, r + 1));
        }
    }
}

/// An axis-aligned rectangle, sides included.
#[derive(Clone, Copy, Debug, PartialEq, Eq, Structural)]
pub struct Rect {
    pub min: Vec2,
    pub max: Vec2,
}

impl Rect {
    /// The corners are in order along both axes.
    pub open spec fn wf(self) -> bool {
        self.min.x <= self.max.x && self.min.y <= self.max.y
    }

    /// Whether `p` lies in the rectangle or on its border.
    pub open spec fn contains(self, p: Vec2) -> bool {
        self.min.x <= p.x <= self.max.x && self.min.y <= p.y <= self.max.y
    }

    /// The point that lies the fraction `fx / 2^32` of the width from the left
    /// side and `fy / 2^32` of the height from the lower side, rounded down.
    pub open spec fn spec_point_at(self, fx: u32, fy: u32) -> Vec2 {
        Vec2 {
            x: (self.min.x + ((self.max.x - self.min.x) * fx) / 0x1_0000_0000) as i32,
            y: (self.min.y + ((self.max.y - self.min.y) * fy) / 0x1_0000_0000) as i32,
        }
    }

    /// Whether the corners are in order along both axes.
    pub fn is_wf(&self) -> (b: bool)
        ensures
            b == self.wf(),
    {
        self.min.x <= self.max.x && self.min.y <= self.max.y
    }

    /// The rectangle spanned by two opposite corners, given in any order.
    pub fn from_corners(a: Vec2, b: Vec2) -> (r: Rect)
        ensures
            r.wf(),
            r.min.x == if a.x <= b.x { a.x } else { b.x },
            r.max.x == if a.x <= b.x { b.x } else { a.x },
            r.min.y == if a.y <= b.y { a.y } else { b.y },
            r.max.y == if a.y <= b.y { b.y } else { a.y },
    {
        let (x0, x1): (i32, i32) = if a.x <= b.x { (a.x, b.x) } else { (b.x, a.x) };
        let (y0, y1): (i32, i32) = if a.y <= b.y { (a.y, b.y) } else { (b.y, a.y) };
        Rect { min: Vec2 { x: x0, y: y0 }, max: Vec2 { x: x1, y: y1 } }
    }

    /// The extent along the x axis.
    pub fn width(&self) -> (w: u32)
        requires
            self.wf(),
        ensures
            w == self.max.x - self.min.x,
    {
        (self.max.x as i64 - self.min.x as i64) as u32
    }

    /// The extent along the y axis.
    pub fn height(&self) -> (h: u32)
        requires
            self.wf(),
        ensures
            h == self.max.y - self.min.y,
    {
        (self.max.y as i64 - self.min.y as i64) as u32
    }

    /// Whether `p` lies in the rectangle or on its border.
    pub fn contains_point(&self, p: Vec2) -> (b: bool)
        ensures
            b == self.contains(p),
    {
        self.min.x <= p.x && p.x <= self.max.x && self.min.y <= p.y && p.y <= self.max.y
    }

    /// The point at the given fractions of the width and the height.
    pub fn point_at(&self, fx: u32, fy: u32) -> (p: Vec2)
        requires
            self.wf(),
        ensures
            p == self.spec_point_at(fx, fy),
            self.contains(p),
    {
        let x: i32 = coord_at(self.min.x, self.width(), fx);
        let y: i32 = coord_at(self.min.y, self.height(), fy);
        Vec2 { x, y }
    }
}

/// The coordinate that lies the fraction `f / 2^32` of `extent` above `low`.
fn coord_at(low: i32, extent: u32, f: u32) -> (c: i32)
    requires
        low + extent <= i32::MAX,
    ensures
        c == low + (extent * f) / 0x1_0000_0000,
        low <= c <= low + extent,
{
    assert(extent * f <= 0xFFFF_FFFF * 0xFFFF_FFFF) by (nonlinear_arith)
        requires
            0 <= extent <= 0xFFFF_FFFF,
            0 <= f <= 0xFFFF_FFFF,
    ;
    let scaled: u64 = (extent as u64) * (f as u64) / 0x1_0000_0000;
    assert(scaled <= extent) by (nonlinear_arith)
        requires
            scaled == (extent * f) / 0x1_0000_0000,
            0 <= extent,
            0 <= f < 0x1_0000_0000,
    ;
    (low as i64 + scaled as i64) as i32
}

/// Every point that `point_at` can give lies inside the rectangle.
pub proof fn lemma_point_at_inside(area: Rect, fx: u32, fy: u32)
    requires
        area.wf(),
    ensures
        area.contains(area.spec_point_at(fx, fy)),
{
    let w: int = area.max.x - area.min.x;
    let h: int = area.max.y - area.min.y;
    assert(0 <= (w * fx) / 0x1_0000_0000 <= w) by (nonlinear_arith)
        requires
            0 <= w,
            0 <= fx < 0x1_0000_0000,
    ;
    assert(0 <= (h * fy) / 0x1_0000_0000 <= h) by (nonlinear_arith)
        requires
            0 <= h,
            0 <= fy < 0x1_0000_0000,
    ;
}

} // verus!
