use vstd::prelude::*;

verus! {

/// A point or displacement on the playing field, measured in thousandths of
/// a pixel. Fixed-point integers stand in for real-valued coordinates so
/// that every geometric step of the simulation admits exact reasoning.
#[derive(Clone, Copy, Debug, PartialEq, Eq, Structural)]
pub struct Vec2 {
    pub x: i64,
    pub y: i64,
}

/// Largest coordinate magnitude any entity may reach; keeps every squared
/// distance below `SQ_CAP` so the arithmetic never overflows.
pub const COORD_LIMIT: i64 = 700_000_000;

/// Coordinate bound for shot origins and movement targets; leaves room for
/// one overshooting step and a full bullet flight inside `COORD_LIMIT`.
pub const TOWER_LIMIT: i64 = 600_000_000;

/// Largest per-axis speed, in thousandths of a pixel per tick.
pub const MAX_SPEED: i64 = 1_000_000;

/// Upper bound on the squared distances handed to `isqrt` (two to the 62nd).
pub const SQ_CAP: u64 = 0x4000_0000_0000_0000;

/// Playing-field width in thousandths of a pixel.
pub const CANVAS_WIDTH: i64 = 800_000;

/// Playing-field height in thousandths of a pixel.
pub const CANVAS_HEIGHT: i64 = 600_000;

pub open spec fn in_limit(v: Vec2, bound: i64) -> bool {
    -bound <= v.x <= bound && -bound <= v.y <= bound
}

pub open spec fn in_bounds(v: Vec2) -> bool {
    in_limit(v, COORD_LIMIT)
}

/// Squared Euclidean distance between two points.
pub open spec fn dist_sq(a: Vec2, b: Vec2) -> int {
    (b.x - a.x) * (b.x - a.x) + (b.y - a.y) * (b.y - a.y)
}

/// The integer square root: the unique `r` with `r * r <= n < (r + 1) * (r + 1)`.
pub open spec fn sqrt_floor(n: int) -> int {
    choose|r: int| 0 <= r && #[trigger] (r * r) <= n && n < (r + 1) * (r + 1)
}

/// Any `r` whose square brackets `n` is exactly `sqrt_floor(n)`.
pub proof fn lemma_sqrt_floor(n: int, r: int)
    requires
        0 <= r,
        r * r <= n,
        n < (r + 1) * (r + 1),
    ensures
        sqrt_floor(n) == r,
{
    let c = sqrt_floor(n);
    assert(0 <= c && c * c <= n && n < (c + 1) * (c + 1)) by {
        assert(exists|q: int| 0 <= q && #[trigger] (q * q) <= n && n < (q + 1) * (q + 1)) by {
            assert(0 <= r && r * r <= n && n < (r + 1) * (r + 1));
        }
    }
    if c < r {
        assert((c + 1) * (c + 1) <= r * r) by (nonlinear_arith)
            requires
                0 <= c,
                c + 1 <= r,
        ;
    }
    if r < c {
        assert((r + 1) * (r + 1) <= c * c) by (nonlinear_arith)
            requires
                0 <= r,
                r + 1 <= c,
        ;
    }
}

/// A component of a vector is no longer than the floor square root of any
/// square-sum it contributes to.
pub proof fn lemma_component_within_root(sq: int, d: int, delta: int)
    requires
        0 <= d,
        d * d <= sq,
        sq < (d + 1) * (d + 1),
        delta * delta <= sq,
    ensures
        -d <= delta <= d,
{
    if delta > d {
        assert((d + 1) * (d + 1) <= delta * delta) by (nonlinear_arith)
            requires
                0 <= d,
                d + 1 <= delta,
        ;
    }
    if delta < -d {
        assert((d + 1) * (d + 1) <= delta * delta) by (nonlinear_arith)
            requires
                0 <= d,
                delta <= -(d + 1),
        ;
    }
}

/// Floor of the integer square root, by bisection.
pub fn isqrt(n: u64) -> (r: u64)
    requires
        n < SQ_CAP,
    ensures
        r * r <= n < (r + 1) * (r + 1),
        r == sqrt_floor(n as int),
{
    let lo0: u64 = 0;
    let hi0: u64 = 0x8000_0000;
    proof {
        assert(lo0 * lo0 == 0 && hi0 * hi0 == SQ_CAP) by (nonlinear_arith)
            requires
                lo0 == 0u64,
                hi0 == 0x8000_0000u64,
        ;
    }
    let mut lo: u64 = lo0;
    let mut hi: u64 = hi0;
    while lo + 1 < hi
        invariant
            lo < hi <= 0x8000_0000u64,
            lo * lo <= n,
            n < hi * hi,
        decreases hi - lo,
    {
        let mid = lo + (hi - lo) / 2;
        proof {
            assert(mid * mid <= SQ_CAP) by (nonlinear_arith)
                requires
                    0 <= mid <= 0x8000_0000u64,
            ;
        }
        if mid * mid <= n {
            lo = mid;
        } else {
            hi = mid;
        }
    }
    proof {
        lemma_sqrt_floor(n as int, lo as int);
    }
    lo
}

/// One movement step along `delta`, scaled so a full step of `dist` would
/// cover `speed`; this is the fixed-point unit vector times the speed.
pub open spec fn step_len(delta: int, dist: int, speed: int) -> int {
    if delta >= 0 {
        speed * delta / dist
    } else {
        -(speed * (-delta) / dist)
    }
}

/// The velocity a projectile gets when aimed from `p` at `t`: the direction
/// unit vector scaled by `speed`, or zero when the two points coincide.
pub open spec fn aim_velocity(p: Vec2, t: Vec2, speed: int) -> Vec2 {
    if dist_sq(p, t) == 0 {
        Vec2 { x: 0, y: 0 }
    } else {
        let d = sqrt_floor(dist_sq(p, t));
        Vec2 { x: step_len(t.x - p.x, d, speed) as i64, y: step_len(t.y - p.y, d, speed) as i64 }
    }
}

/// Magnitude of one axis of a scaled step, on non-negative inputs.
fn step_magnitude(delta: u64, dist: u64, speed: u64) -> (s: u64)
    requires
        1 <= dist <= 4_000_000_000,
        delta <= dist,
        speed <= MAX_SPEED as u64,
    ensures
        s == speed * delta / (dist as int),
        s <= speed,
        delta == 0 ==> s == 0,
{
    proof {
        assert(speed * delta <= speed * dist && speed * dist <= 1_000_000 * 4_000_000_000) by (nonlinear_arith)
            requires
                0 <= delta <= dist,
                dist <= 4_000_000_000u64,
                0 <= speed <= 1_000_000u64,
        ;
    }
    let prod = speed * delta;
    let q = prod / dist;
    proof {
        vstd::arithmetic::div_mod::lemma_div_is_ordered(prod as int, speed * dist, dist as int);
        vstd::arithmetic::div_mod::lemma_div_by_multiple(speed as int, dist as int);
        if delta == 0 {
            assert(speed * delta == 0) by (nonlinear_arith)
                requires
                    delta == 0u64,
            ;
            vstd::arithmetic::div_mod::lemma_div_of0(dist as int);
        }
    }
    q
}

/// One axis of a scaled step, signed.
fn step_axis(delta: i64, dist: i64, speed: i64) -> (s: i64)
    requires
        1 <= dist <= 4_000_000_000,
        -dist <= delta <= dist,
        0 <= speed <= MAX_SPEED,
    ensures
        s == step_len(delta as int, dist as int, speed as int),
        -speed <= s <= speed,
        delta >= 0 ==> s >= 0,
        delta <= 0 ==> s <= 0,
{
    if delta >= 0 {
        let m = step_magnitude(delta as u64, dist as u64, speed as u64);
        m as i64
    } else {
        let m = step_magnitude((-delta) as u64, dist as u64, speed as u64);
        -(m as i64)
    }
}

/// The velocity aimed from `p` at `target` with the given speed, computed
/// exactly as `aim_velocity` describes.
pub fn aim_step(p: Vec2, target: Vec2, speed: i64) -> (v: Vec2)
    requires
        in_bounds(p),
        in_bounds(target),
        0 <= speed <= MAX_SPEED,
    ensures
        v == aim_velocity(p, target, speed as int),
        -speed <= v.x <= speed,
        -speed <= v.y <= speed,
        target.x >= p.x ==> v.x >= 0,
        target.x <= p.x ==> v.x <= 0,
        target.y >= p.y ==> v.y >= 0,
        target.y <= p.y ==> v.y <= 0,
{
    let dx = target.x - p.x;
    let dy = target.y - p.y;
    if dx == 0 && dy == 0 {
        proof {
            assert((target.x - p.x) * (target.x - p.x) == 0 && (target.y - p.y) * (target.y - p.y)
                == 0) by (nonlinear_arith)
                requires
                    target.x == p.x,
                    target.y == p.y,
            ;
        }
        Vec2 { x: 0, y: 0 }
    } else {
        proof {
            assert(0 <= dx * dx <= 1_960_000_000_000_000_000 && 0 <= dy * dy
                <= 1_960_000_000_000_000_000 && (dx != 0 ==> 1 <= dx * dx) && (dy != 0 ==> 1 <= dy
                * dy)) by (nonlinear_arith)
                requires
                    -1_400_000_000 <= dx <= 1_400_000_000,
                    -1_400_000_000 <= dy <= 1_400_000_000,
            ;
        }
        let sq = (dx * dx + dy * dy) as u64;
        let d = isqrt(sq);
        proof {
            if d == 0 {
                assert((d + 1) * (d + 1) == 1) by (nonlinear_arith)
                    requires
                        d == 0u64,
                ;
            }
            if d > 4_000_000_000 {
                assert(d * d > 3_920_000_000_000_000_000) by (nonlinear_arith)
                    requires
                        d >= 4_000_000_001u64,
                ;
            }
            lemma_component_within_root(sq as int, d as int, dx as int);
            lemma_component_within_root(sq as int, d as int, dy as int);
        }
        let vx = step_axis(dx, d as i64, speed);
        let vy = step_axis(dy, d as i64, speed);
        Vec2 { x: vx, y: vy }
    }
}

/// Squared Euclidean distance, as executable code.
pub fn dist_sq_val(a: Vec2, b: Vec2) -> (r: u64)
    requires
        in_bounds(a),
        in_bounds(b),
    ensures
        r == dist_sq(a, b),
        r < SQ_CAP,
{
    let dx = b.x - a.x;
    let dy = b.y - a.y;
    proof {
        assert(0 <= dx * dx <= 1_960_000_000_000_000_000 && 0 <= dy * dy
            <= 1_960_000_000_000_000_000) by (nonlinear_arith)
            requires
                -1_400_000_000 <= dx <= 1_400_000_000,
                -1_400_000_000 <= dy <= 1_400_000_000,
        ;
    }
    (dx * dx + dy * dy) as u64
}

} // verus!
