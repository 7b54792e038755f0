//! Whole-number points, sizes and rectangles, and the linear maps between
//! content space and track space.

use vstd::prelude::*;

verus! {

/// Largest magnitude of a position. A size or a delta may be twice as large,
/// which is what the distance between two positions can reach.
pub const COORD_MAX: i64 = 0x2000_0000;

/// `v` can stand for a position.
pub open spec fn is_pos(v: int) -> bool {
    -COORD_MAX <= v <= COORD_MAX
}

/// `v` can stand for a size, a pointer or wheel delta, or an offset.
pub open spec fn is_span(v: int) -> bool {
    -2 * COORD_MAX <= v <= 2 * COORD_MAX
}

/// `v` moved to the nearest position.
pub open spec fn clamp_pos(v: int) -> int {
    if v < -COORD_MAX {
        -COORD_MAX as int
    } else if v > COORD_MAX {
        COORD_MAX as int
    } else {
        v
    }
}

/// The smaller of two numbers.
pub open spec fn spec_min(a: int, b: int) -> int {
    if a <= b {
        a
    } else {
        b
    }
}

/// The larger of two numbers.
pub open spec fn spec_max(a: int, b: int) -> int {
    if a >= b {
        a
    } else {
        b
    }
}

pub fn min_of(a: i64, b: i64) -> (r: i64)
    ensures
        r == spec_min(a as int, b as int),
{
    if a <= b {
        a
    } else {
        b
    }
}

pub fn max_of(a: i64, b: i64) -> (r: i64)
    ensures
        r == spec_max(a as int, b as int),
{
    if a >= b {
        a
    } else {
        b
    }
}

/// The quotient of `a` by a positive `b`, rounded toward zero.
pub open spec fn div_toward_zero(a: int, b: int) -> int {
    if a >= 0 {
        a / b
    } else {
        -((-a) / b)
    }
}

/// Where `x` of the range `from_lo..=from_hi` lies in `to_lo..=to_hi`, by
/// linear interpolation, without a limit at either end. A source range with
/// no length maps everything to `to_lo`.
pub open spec fn remap_spec(x: int, from_lo: int, from_hi: int, to_lo: int, to_hi: int) -> int {
    if from_hi <= from_lo {
        to_lo
    } else {
        to_lo + div_toward_zero((x - from_lo) * (to_hi - to_lo), from_hi - from_lo)
    }
}

/// As `remap_spec`, with `x` first held inside the source range.
pub open spec fn remap_clamp_spec(
    x: int,
    from_lo: int,
    from_hi: int,
    to_lo: int,
    to_hi: int,
) -> int {
    if from_hi <= from_lo || x <= from_lo {
        to_lo
    } else if x >= from_hi {
        to_hi
    } else {
        remap_spec(x, from_lo, from_hi, to_lo, to_hi)
    }
}

/// Tests `is_pos`.
pub fn check_pos(v: i64) -> (b: bool)
    ensures
        b == is_pos(v as int),
{
    -COORD_MAX <= v && v <= COORD_MAX
}

/// Tests `is_span`.
pub fn check_span(v: i64) -> (b: bool)
    ensures
        b == is_span(v as int),
{
    -2 * COORD_MAX <= v && v <= 2 * COORD_MAX
}

pub fn saturate_pos(v: i64) -> (r: i64)
    ensures
        r == clamp_pos(v as int),
{
    if v < -COORD_MAX {
        -COORD_MAX
    } else if v > COORD_MAX {
        COORD_MAX
    } else {
        v
    }
}

/// Division rounded toward zero.
pub fn div_trunc(a: i64, b: i64) -> (q: i64)
    requires
        b > 0,
        a > i64::MIN,
    ensures
        q == div_toward_zero(a as int, b as int),
        a >= 0 ==> 0 <= q <= a,
        a <= 0 ==> a <= q <= 0,
{
    if a >= 0 {
        let ua: u64 = a as u64;
        let ub: u64 = b as u64;
        let uq: u64 = ua / ub;
        proof {
            lemma_quotient_bounds(a as int, b as int);
        }
        uq as i64
    } else {
        let ua: u64 = (-a) as u64;
        let ub: u64 = b as u64;
        let uq: u64 = ua / ub;
        proof {
            lemma_quotient_bounds(-a as int, b as int);
        }
        -(uq as i64)
    }
}

/// A quotient of a non-negative number by a positive one lies between zero
/// and the number.
pub proof fn lemma_quotient_bounds(a: int, b: int)
    requires
        a >= 0,
        b > 0,
    ensures
        0 <= a / b <= a,
{
    assert(0 <= a / b <= a) by (nonlinear_arith)
        requires
            a >= 0,
            b > 0,
    ;
}

/// `remap_spec`, computed.
pub fn remap(x: i64, from_lo: i64, from_hi: i64, to_lo: i64, to_hi: i64) -> (r: i64)
    requires
        -4 * COORD_MAX <= x - from_lo <= 4 * COORD_MAX,
        is_span(from_lo as int),
        is_span(from_hi as int),
        is_span(to_lo as int),
        is_span(to_hi as int),
    ensures
        r == remap_spec(x as int, from_lo as int, from_hi as int, to_lo as int, to_hi as int),
{
    if from_hi <= from_lo {
        to_lo
    } else {
        let dx: i64 = x - from_lo;
        let dt: i64 = to_hi - to_lo;
        assert(-16 * COORD_MAX * COORD_MAX <= dx * dt <= 16 * COORD_MAX * COORD_MAX)
            by (nonlinear_arith)
            requires
                -4 * COORD_MAX <= dx <= 4 * COORD_MAX,
                -4 * COORD_MAX <= dt <= 4 * COORD_MAX,
        ;
        let q: i64 = div_trunc(dx * dt, from_hi - from_lo);
        to_lo + q
    }
}

/// `remap_clamp_spec`, computed. The result lies between `to_lo` and `to_hi`
/// where these are in order.
pub fn remap_clamp(x: i64, from_lo: i64, from_hi: i64, to_lo: i64, to_hi: i64) -> (r: i64)
    requires
        is_span(from_lo as int),
        is_span(from_hi as int),
        is_span(to_lo as int),
        is_span(to_hi as int),
    ensures
        spec_min(to_lo as int, to_hi as int) <= r <= spec_max(to_lo as int, to_hi as int),
        r == remap_clamp_spec(x as int, from_lo as int, from_hi as int, to_lo as int, to_hi as int),
{
    if from_hi <= from_lo || x <= from_lo {
        to_lo
    } else if x >= from_hi {
        to_hi
    } else {
        proof {
            lemma_remap_inside(
                x as int,
                from_lo as int,
                from_hi as int,
                to_lo as int,
                to_hi as int,
            );
        }
        remap(x, from_lo, from_hi, to_lo, to_hi)
    }
}

/// Inside its source range, a point maps between the ends of the target
/// range, whichever of the two is the larger.
pub proof fn lemma_remap_inside(x: int, from_lo: int, from_hi: int, to_lo: int, to_hi: int)
    requires
        from_lo <= x <= from_hi,
        from_lo < from_hi,
    ensures
        spec_min(to_lo, to_hi) <= remap_spec(x, from_lo, from_hi, to_lo, to_hi) <= spec_max(
            to_lo,
            to_hi,
        ),
{
    let d = from_hi - from_lo;
    let k = x - from_lo;
    if to_lo <= to_hi {
        let n = k * (to_hi - to_lo);
        assert(0 <= n <= d * (to_hi - to_lo) && n == (x - from_lo) * (to_hi - to_lo))
            by (nonlinear_arith)
            requires
                n == k * (to_hi - to_lo),
                k == x - from_lo,
                0 <= k <= d,
                to_lo <= to_hi,
        ;
        assert(0 <= n / d <= to_hi - to_lo) by (nonlinear_arith)
            requires
                0 <= n <= d * (to_hi - to_lo),
                d > 0,
        ;
    } else {
        let n = k * (to_lo - to_hi);
        assert(0 <= n <= d * (to_lo - to_hi) && -n == (x - from_lo) * (to_hi - to_lo))
            by (nonlinear_arith)
            requires
                n == k * (to_lo - to_hi),
                k == x - from_lo,
                0 <= k <= d,
                to_lo > to_hi,
        ;
        assert(0 <= n / d <= to_lo - to_hi) by (nonlinear_arith)
            requires
                0 <= n <= d * (to_lo - to_hi),
                d > 0,
        ;
        assert(0int / d == 0) by (nonlinear_arith)
            requires
                d > 0,
        ;
    }
}

/// A point, a size or a movement: two whole numbers.
#[derive(Clone, Copy, Debug, PartialEq, Eq, Structural)]
pub struct Vec2 {
    pub x: i64,
    pub y: i64,
}

impl Vec2 {
    /// Both components can stand for a position.
    pub open spec fn is_pos(self) -> bool {
        is_pos(self.x as int) && is_pos(self.y as int)
    }

    /// Both components can stand for a size or a delta.
    pub open spec fn is_span(self) -> bool {
        is_span(self.x as int) && is_span(self.y as int)
    }

    pub fn check_pos(&self) -> (b: bool)
        ensures
            b == self.is_pos(),
    {
        check_pos(self.x) && check_pos(self.y)
    }

    pub fn check_span(&self) -> (b: bool)
        ensures
            b == self.is_span(),
    {
        check_span(self.x) && check_span(self.y)
    }

    pub fn new(x: i64, y: i64) -> (v: Vec2)
        ensures
            v == (Vec2 { x, y }),
    {
        Vec2 { x, y }
    }

    pub fn zero() -> (v: Vec2)
        ensures
            v == (Vec2 { x: 0, y: 0 }),
    {
        Vec2 { x: 0, y: 0 }
    }
}

/// An axis-aligned rectangle, by its top-left and bottom-right corners. Both
/// edges belong to it.
#[derive(Clone, Copy, Debug, PartialEq, Eq, Structural)]
pub struct Rect {
    pub min: Vec2,
    pub max: Vec2,
}

impl Rect {
    /// All four edges are positions.
    pub open spec fn is_pos(self) -> bool {
        self.min.is_pos() && self.max.is_pos()
    }

    pub open spec fn spec_width(self) -> int {
        self.max.x - self.min.x
    }

    pub open spec fn spec_height(self) -> int {
        self.max.y - self.min.y
    }

    pub open spec fn spec_size(self) -> Vec2 {
        Vec2 { x: (self.max.x - self.min.x) as i64, y: (self.max.y - self.min.y) as i64 }
    }

    /// The rectangle that starts at `min` and extends by `size`, its far
    /// corner held inside the positions.
    pub open spec fn spec_from_min_size(min: Vec2, size: Vec2) -> Rect {
        Rect {
            min,
            max: Vec2 {
                x: clamp_pos(min.x + size.x) as i64,
                y: clamp_pos(min.y + size.y) as i64,
            },
        }
    }

    /// `p` lies in the rectangle, edges included.
    pub open spec fn spec_contains(self, p: Vec2) -> bool {
        self.min.x <= p.x <= self.max.x && self.min.y <= p.y <= self.max.y
    }

    /// What `self` and `other` have in common. Where they are apart the
    /// result has an edge before its opposite.
    pub open spec fn spec_intersect(self, other: Rect) -> Rect {
        Rect {
            min: Vec2 {
                x: if self.min.x >= other.min.x { self.min.x } else { other.min.x },
                y: if self.min.y >= other.min.y { self.min.y } else { other.min.y },
            },
            max: Vec2 {
                x: if self.max.x <= other.max.x { self.max.x } else { other.max.x },
                y: if self.max.y <= other.max.y { self.max.y } else { other.max.y },
            },
        }
    }

    pub fn check_pos(&self) -> (b: bool)
        ensures
            b == self.is_pos(),
    {
        self.min.check_pos() && self.max.check_pos()
    }

    pub fn from_min_max(min: Vec2, max: Vec2) -> (r: Rect)
        ensures
            r == (Rect { min, max }),
    {
        Rect { min, max }
    }

    pub fn from_min_size(min: Vec2, size: Vec2) -> (r: Rect)
        requires
            min.is_pos(),
            size.is_span(),
        ensures
            r == Rect::spec_from_min_size(min, size),
            r.is_pos(),
    {
        Rect {
            min,
            max: Vec2 { x: saturate_pos(min.x + size.x), y: saturate_pos(min.y + size.y) },
        }
    }

    pub fn width(&self) -> (w: i64)
        requires
            self.is_pos(),
        ensures
            w == self.spec_width(),
            is_span(w as int),
    {
        self.max.x - self.min.x
    }

    pub fn height(&self) -> (h: i64)
        requires
            self.is_pos(),
        ensures
            h == self.spec_height(),
            is_span(h as int),
    {
        self.max.y - self.min.y
    }

    pub fn size(&self) -> (s: Vec2)
        requires
            self.is_pos(),
        ensures
            s == self.spec_size(),
            s.x == self.spec_width(),
            s.y == self.spec_height(),
            s.is_span(),
    {
        Vec2 { x: self.max.x - self.min.x, y: self.max.y - self.min.y }
    }

    pub fn contains(&self, p: Vec2) -> (b: bool)
        ensures
            b == self.spec_contains(p),
    {
        self.min.x <= p.x && p.x <= self.max.x && self.min.y <= p.y && p.y <= self.max.y
    }

    pub fn intersect(&self, other: Rect) -> (r: Rect)
        ensures
            r == self.spec_intersect(other),
            self.is_pos() && other.is_pos() ==> r.is_pos(),
    {
        Rect {
            min: Vec2 {
                x: if self.min.x >= other.min.x { self.min.x } else { other.min.x },
                y: if self.min.y >= other.min.y { self.min.y } else { other.min.y },
            },
            max: Vec2 {
                x: if self.max.x <= other.max.x { self.max.x } else { other.max.x },
                y: if self.max.y <= other.max.y { self.max.y } else { other.max.y },
            },
        }
    }
}

} // verus!
