//! Fixed-point plane geometry: points, squared distances, integer square
//! roots and movement along a straight line toward a target.

use vstd::prelude::*;

verus! {

/// Fixed-point steps per world unit.
pub const MILLI: i64 = 1000;

/// Largest coordinate magnitude the simulation keeps; movement clamps here.
pub const COORD_LIMIT: i64 = 100_000_000;

/// Largest single movement step `move_toward` accepts.
pub const STEP_LIMIT: i64 = 100_000_000;

#[derive(Clone, Copy, PartialEq, Eq, Structural, Debug)]
pub struct Point2D {
    pub x: i64,
    pub y: i64,
}

impl Point2D {
    pub open spec fn in_bounds(self) -> bool {
        -COORD_LIMIT <= self.x <= COORD_LIMIT && -COORD_LIMIT <= self.y <= COORD_LIMIT
    }

    pub open spec fn spec_dist_sq(self, other: Point2D) -> int {
        (self.x - other.x) * (self.x - other.x) + (self.y - other.y) * (self.y - other.y)
    }

    pub fn new(x: i64, y: i64) -> (r: Point2D)
        ensures
            r.x == x,
            r.y == y,
    {
        Point2D { x, y }
    }

    pub fn zero() -> (r: Point2D)
        ensures
            r.x == 0,
            r.y == 0,
            r.in_bounds(),
    {
        Point2D { x: 0, y: 0 }
    }

    /// Squared Euclidean distance; range decisions compare it against a
    /// squared radius, which needs no square root.
    pub fn dist_sq(&self, other: &Point2D) -> (r: i64)
        requires
            self.in_bounds(),
            other.in_bounds(),
        ensures
            r == self.spec_dist_sq(*other),
            0 <= r <= 8 * COORD_LIMIT * COORD_LIMIT,
    {
        let dx: i64 = self.x - other.x;
        let dy: i64 = self.y - other.y;
        proof {
            lemma_square_bound(dx as int, 2 * COORD_LIMIT as int);
            lemma_square_bound(dy as int, 2 * COORD_LIMIT as int);
        }
        dx * dx + dy * dy
    }

    /// Euclidean distance, rounded down.
    pub fn distance_to(&self, other: &Point2D) -> (r: i64)
        requires
            self.in_bounds(),
            other.in_bounds(),
        ensures
            r == spec_isqrt(self.spec_dist_sq(*other)),
            0 <= r,
            r * r <= self.spec_dist_sq(*other) < (r + 1) * (r + 1),
    {
        let d2 = self.dist_sq(other);
        isqrt(d2)
    }
}

/// `0 <= a * a <= limit * limit` whenever `|a| <= limit`.
pub proof fn lemma_square_bound(a: int, limit: int)
    requires
        -limit <= a <= limit,
    ensures
        0 <= a * a <= limit * limit,
{
    assert(0 <= a * a <= limit * limit) by (nonlinear_arith)
        requires
            -limit <= a <= limit,
    ;
}

/// `a * b <= c * d` for non-negative factors bounded pairwise.
pub proof fn lemma_mul_le(a: int, b: int, c: int, d: int)
    requires
        0 <= a <= c,
        0 <= b <= d,
    ensures
        0 <= a * b <= c * d,
{
    assert(0 <= a * b <= c * d) by (nonlinear_arith)
        requires
            0 <= a <= c,
            0 <= b <= d,
    ;
}

/// A number whose square stays below `(r + 1)^2` lies within `[-r, r]`.
pub proof fn lemma_root_le(a: int, r: int, d2: int)
    requires
        0 <= r,
        a * a <= d2,
        d2 < (r + 1) * (r + 1),
    ensures
        -r <= a <= r,
{
    if a > r {
        assert((r + 1) * (r + 1) <= a * a) by (nonlinear_arith)
            requires
                0 <= r,
                r + 1 <= a,
        ;
    }
    if a < -r {
        assert((r + 1) * (r + 1) <= a * a) by (nonlinear_arith)
            requires
                0 <= r,
                a <= -(r + 1),
        ;
    }
}

/// The non-negative integer square root, rounded down.
pub open spec fn spec_isqrt(n: int) -> int {
    choose|r: int| 0 <= r && #[trigger] (r * r) <= n < (r + 1) * (r + 1)
}

proof fn lemma_isqrt_exists(n: int)
    requires
        0 <= n,
    ensures
        exists|r: int| 0 <= r && #[trigger] (r * r) <= n < (r + 1) * (r + 1),
    decreases n,
{
    if n == 0 {
        let z: int = 0;
        assert(z * z <= n < (z + 1) * (z + 1)) by (nonlinear_arith)
            requires
                n == 0,
                z == 0,
        ;
    } else {
        lemma_isqrt_exists(n - 1);
        let p = choose|r: int| 0 <= r && #[trigger] (r * r) <= n - 1 < (r + 1) * (r + 1);
        if (p + 1) * (p + 1) <= n {
            assert(n <= (p + 1) * (p + 1));
            assert((p + 1) * (p + 1) <= n < ((p + 1) + 1) * ((p + 1) + 1)) by (nonlinear_arith)
                requires
                    0 <= p,
                    (p + 1) * (p + 1) <= n,
                    n - 1 < (p + 1) * (p + 1),
            ;
        } else {
            assert(p * p <= n < (p + 1) * (p + 1));
        }
    }
}

/// The witness in `spec_isqrt` is unique, so the `choose` picks it.
pub proof fn lemma_isqrt_is(n: int, r: int)
    requires
        0 <= r,
        r * r <= n < (r + 1) * (r + 1),
    ensures
        spec_isqrt(n) == r,
{
    lemma_isqrt_exists(n);
    let q = spec_isqrt(n);
    assert(0 <= q && q * q <= n < (q + 1) * (q + 1));
    if q < r {
        assert((q + 1) * (q + 1) <= r * r) by (nonlinear_arith)
            requires
                0 <= q,
                q + 1 <= r,
        ;
    }
    if r < q {
        assert((r + 1) * (r + 1) <= q * q) by (nonlinear_arith)
            requires
                0 <= r,
                r + 1 <= q,
        ;
    }
}

/// Binary search for the integer square root.
pub fn isqrt(n: i64) -> (r: i64)
    requires
        0 <= n,
    ensures
        0 <= r,
        r * r <= n < (r + 1) * (r + 1),
        r == spec_isqrt(n as int),
{
    let mut lo: i64 = 0;
    // 3_037_000_499 squared is the last square below i64::MAX.
    let mut hi: i64 = if n < 3_037_000_499 {
        n
    } else {
        3_037_000_499
    };
    proof {
        if n < 3_037_000_499 {
            assert(n < (n + 1) * (n + 1)) by (nonlinear_arith)
                requires
                    0 <= n,
            ;
        } else {
            assert((3_037_000_499 + 1) * (3_037_000_499 + 1) > n) by (nonlinear_arith)
                requires
                    n <= i64::MAX,
            ;
        }
    }
    while lo < hi
        invariant
            0 <= lo <= hi <= 3_037_000_499,
            lo * lo <= n,
            n < (hi + 1) * (hi + 1),
        decreases hi - lo,
    {
        let mid: i64 = lo + (hi - lo + 1) / 2;
        proof {
            lemma_square_bound(mid as int, 3_037_000_499);
        }
        if mid * mid <= n {
            lo = mid;
        } else {
            hi = mid - 1;
        }
    }
    proof {
        lemma_isqrt_is(n as int, lo as int);
    }
    lo
}

/// Where a point ends up after stepping `step` toward `target`: each
/// coordinate advances by its share `|delta| * step / dist` of the step,
/// then is clamped to the arena bound. A step longer than the distance
/// overshoots the target, as the original motion rule does.
pub open spec fn spec_step_coord(from: i64, to: i64, step: int, dist: int) -> int
    recommends
        dist > 0,
{
    let d = if to >= from {
        to - from
    } else {
        from - to
    };
    let s = d * step / dist;
    let moved = if to >= from {
        from + s
    } else {
        from - s
    };
    if moved > COORD_LIMIT {
        COORD_LIMIT as int
    } else if moved < -COORD_LIMIT {
        -COORD_LIMIT as int
    } else {
        moved
    }
}

fn step_coord(from: i64, to: i64, step: i64, dist: i64) -> (r: i64)
    requires
        -COORD_LIMIT <= from <= COORD_LIMIT,
        -COORD_LIMIT <= to <= COORD_LIMIT,
        0 <= step <= STEP_LIMIT,
        0 < dist,
        (to - from) * (to - from) <= dist * dist,
    ensures
        r == spec_step_coord(from, to, step as int, dist as int),
        -COORD_LIMIT <= r <= COORD_LIMIT,
{
    let d: i64 = if to >= from {
        to - from
    } else {
        from - to
    };
    proof {
        lemma_square_bound(d as int, 2 * COORD_LIMIT as int);
        assert(d * d == (to - from) * (to - from)) by (nonlinear_arith)
            requires
                d == to - from || d == from - to,
        ;
        assert(dist * dist < (dist + 1) * (dist + 1)) by (nonlinear_arith)
            requires
                0 < dist,
        ;
        lemma_root_le(d as int, dist as int, (dist * dist) as int);
        lemma_mul_le(d as int, step as int, 2 * COORD_LIMIT as int, STEP_LIMIT as int);
    }
    let s: i64 = d * step / dist;
    proof {
        assert(0 <= s <= step) by (nonlinear_arith)
            requires
                0 <= d <= dist,
                0 <= step,
                0 < dist,
                s == d as int * step as int / dist as int,
        ;
    }
    let moved: i64 = if to >= from {
        from + s
    } else {
        from - s
    };
    if moved > COORD_LIMIT {
        COORD_LIMIT
    } else if moved < -COORD_LIMIT {
        -COORD_LIMIT
    } else {
        moved
    }
}

/// Move `from` by `step` fixed-point units toward `target`, given the
/// squared distance between them is `d2` and `dist = isqrt(d2) > 0`.
pub fn move_toward(from: &Point2D, target: &Point2D, step: i64, dist: i64) -> (r: Point2D)
    requires
        from.in_bounds(),
        target.in_bounds(),
        0 <= step <= STEP_LIMIT,
        0 < dist,
        dist == spec_isqrt(from.spec_dist_sq(*target)),
    ensures
        r.in_bounds(),
        r.x == spec_step_coord(from.x, target.x, step as int, dist as int),
        r.y == spec_step_coord(from.y, target.y, step as int, dist as int),
{
    proof {
        let dx = target.x - from.x;
        let dy = target.y - from.y;
        lemma_square_bound(dx as int, 2 * COORD_LIMIT as int);
        lemma_square_bound(dy as int, 2 * COORD_LIMIT as int);
        let d2 = from.spec_dist_sq(*target);
        assert(d2 == dx * dx + dy * dy) by (nonlinear_arith)
            requires
                dx == target.x - from.x,
                dy == target.y - from.y,
                d2 == (from.x - target.x) * (from.x - target.x) + (from.y - target.y) * (from.y
                    - target.y),
        ;
        lemma_isqrt_exists(d2);
        // `dist` is the unique root of `d2`, so it carries the root bounds.
        assert(dist * dist <= d2 < (dist + 1) * (dist + 1));
        lemma_root_le(dx as int, dist as int, d2);
        lemma_root_le(dy as int, dist as int, d2);
        lemma_square_bound(dx as int, dist as int);
        lemma_square_bound(dy as int, dist as int);
    }
    let x = step_coord(from.x, target.x, step, dist);
    let y = step_coord(from.y, target.y, step, dist);
    Point2D { x, y }
}

} // verus!
