//! Fixed-point vectors and arithmetic shared by the gameplay systems.
//!
//! Lengths are micrometres, speeds micrometres per second, accelerations
//! micrometres per second squared and durations microseconds.
use vstd::prelude::*;

verus! {

/// Micrometres in a metre, and microseconds in a second.
pub const MICROS: u64 = 1_000_000;

/// Largest magnitude of a coordinate that the world may hold.
pub const WORLD_LIMIT: i64 = 1_000_000_000_000_000_000;

/// Largest magnitude of a speed or an acceleration taken by the integrator.
pub const MAX_RATE: i64 = 1_000_000_000_000;

/// Longest tick, in microseconds, that the integrator accepts.
pub const MAX_TICK_MICROS: u64 = 1_000_000_000;

/// Quotient rounded toward zero, as integer division rounds.
pub open spec fn trunc_div(a: int, d: int) -> int {
    if a >= 0 {
        a / d
    } else {
        -((-a) / d)
    }
}

/// Magnitude of an integer.
pub open spec fn abs(a: int) -> int {
    if a >= 0 {
        a
    } else {
        -a
    }
}

/// `v` limited to the interval `[lo, hi]`.
pub open spec fn clamp(v: int, lo: int, hi: int) -> int {
    if v < lo {
        lo
    } else if v > hi {
        hi
    } else {
        v
    }
}

/// A point or a displacement in world space.
#[derive(Clone, Copy, Debug, PartialEq, Eq, Structural)]
pub struct Vec3 {
    pub x: i64,
    pub y: i64,
    pub z: i64,
}

impl Vec3 {
    pub fn new(x: i64, y: i64, z: i64) -> (r: Vec3)
        ensures
            r == (Vec3 { x, y, z }),
    {
        Vec3 { x, y, z }
    }

    pub fn zero() -> (r: Vec3)
        ensures
            r == (Vec3 { x: 0, y: 0, z: 0 }),
    {
        Vec3 { x: 0, y: 0, z: 0 }
    }

    /// Every coordinate lies within the world's bounds.
    pub open spec fn in_world(self) -> bool {
        abs(self.x as int) <= WORLD_LIMIT && abs(self.y as int) <= WORLD_LIMIT && abs(
            self.z as int,
        ) <= WORLD_LIMIT
    }

    /// Componentwise sum, as mathematical integers.
    pub open spec fn plus(self, o: Vec3) -> (int, int, int) {
        (self.x + o.x, self.y + o.y, self.z + o.z)
    }
}

/// `rate * micros` microseconds' worth of `rate`, rounded toward zero:
/// the change that a per-second rate brings about over one tick.
pub fn scale_by_time(rate: i64, micros: u64) -> (r: i64)
    requires
        abs(rate as int) <= 2 * MAX_RATE,
        micros <= MAX_TICK_MICROS,
    ensures
        r == trunc_div(rate * micros, MICROS as int),
        abs(r as int) <= abs(rate as int) * MAX_TICK_MICROS / (MICROS as int),
{
    let magnitude: u64 = if rate >= 0 {
        rate as u64
    } else {
        (-rate) as u64
    };
    assert(magnitude as u128 * micros as u128 <= u64::MAX as u128 * u64::MAX as u128)
        by (nonlinear_arith);
    let product: u128 = magnitude as u128 * micros as u128;
    let quotient: u128 = product / (MICROS as u128);
    proof {
        assert(product <= magnitude * MAX_TICK_MICROS) by (nonlinear_arith)
            requires
                product == magnitude * micros,
                micros <= MAX_TICK_MICROS,
        ;
        vstd::arithmetic::div_mod::lemma_div_is_ordered(
            product as int,
            magnitude * MAX_TICK_MICROS,
            MICROS as int,
        );
        if rate < 0 {
            assert(rate * micros == -(magnitude * micros)) by (nonlinear_arith)
                requires
                    magnitude == -rate,
            ;
        }
    }
    if rate >= 0 {
        quotient as i64
    } else {
        -(quotient as i64)
    }
}

/// `a / d` rounded toward zero.
pub fn div_toward_zero(a: i64, d: i64) -> (r: i64)
    requires
        a > i64::MIN,
        d > 0,
    ensures
        r == trunc_div(a as int, d as int),
{
    if a >= 0 {
        ((a as u64) / (d as u64)) as i64
    } else {
        -((((-a) as u64) / (d as u64)) as i64)
    }
}

/// The integer square root: the largest `r` with `r * r <= n`.
pub open spec fn root_floor(n: int) -> int
    decreases n,
{
    if n <= 0 {
        0
    } else {
        let r = root_floor(n - 1);
        if (r + 1) * (r + 1) <= n {
            r + 1
        } else {
            r
        }
    }
}

/// `root_floor(n)` is the one `r` with `r * r <= n < (r + 1) * (r + 1)`.
pub proof fn lemma_root_floor(n: int)
    requires
        n >= 0,
    ensures
        root_floor(n) >= 0,
        root_floor(n) * root_floor(n) <= n,
        n < (root_floor(n) + 1) * (root_floor(n) + 1),
    decreases n,
{
    if n > 0 {
        lemma_root_floor(n - 1);
        let r = root_floor(n - 1);
        if (r + 1) * (r + 1) <= n {
            assert(n < (r + 2) * (r + 2)) by (nonlinear_arith)
                requires
                    n - 1 < (r + 1) * (r + 1),
                    r >= 0,
            ;
        }
    }
}

/// Two integers whose squares bracket `n` the same way are equal.
pub proof fn lemma_root_unique(n: int, a: int, b: int)
    requires
        a >= 0,
        b >= 0,
        a * a <= n < (a + 1) * (a + 1),
        b * b <= n < (b + 1) * (b + 1),
    ensures
        a == b,
{
    if a < b {
        assert((a + 1) * (a + 1) <= b * b) by (nonlinear_arith)
            requires
                a + 1 <= b,
                a >= 0,
        ;
    }
    if b < a {
        assert((b + 1) * (b + 1) <= a * a) by (nonlinear_arith)
            requires
                b + 1 <= a,
                b >= 0,
        ;
    }
}

/// Largest integer square root of `n`, by bisection.
pub fn integer_sqrt(n: u64) -> (r: u64)
    ensures
        r == root_floor(n as int),
{
    let mut lo: u64 = 0;
    let mut hi: u64 = 4_294_967_296;
    assert(hi * hi > n) by (nonlinear_arith)
        requires
            hi == 4_294_967_296u64,
            n <= u64::MAX,
    ;
    while hi - lo > 1
        invariant
            lo < hi <= 4_294_967_296,
            lo * lo <= n,
            n < hi * hi,
        decreases hi - lo,
    {
        let mid: u64 = lo + (hi - lo) / 2;
        assert(lo < mid < hi);
        assert(mid as u128 * mid as u128 <= u64::MAX as u128 * u64::MAX as u128)
            by (nonlinear_arith);
        if mid as u128 * mid as u128 <= n as u128 {
            lo = mid;
        } else {
            hi = mid;
        }
    }
    proof {
        lemma_root_floor(n as int);
        assert(hi == lo + 1);
        lemma_root_unique(n as int, lo as int, root_floor(n as int));
    }
    lo
}

} // verus!
