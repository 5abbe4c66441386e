//! Fixed-point scalars and vectors.
//!
//! Every scalar in this crate is an `i64` holding thousandths of its unit:
//! lengths in thousandths of a length unit, speeds in thousandths of a unit
//! per second, angles in thousandths of a degree, time in thousandths of a
//! second. `SCALE` is the representation of `1.0`. A product of two
//! fixed-point numbers is the integer product divided by `SCALE`, rounding
//! toward zero; dot and cross products divide each component product before
//! combining, so every intermediate stays inside `i64` for factors up to
//! `FACTOR_LIMIT`.

use vstd::arithmetic::div_mod::{
    lemma_div_is_ordered, lemma_div_nonincreasing, lemma_div_pos_is_pos,
};
use vstd::prelude::*;

verus! {

/// The fixed-point representation of `1.0`: one thousand thousandths.
pub const SCALE: i64 = 1000;

/// Magnitude bound on coordinates the engine hands in (positions,
/// velocities, speeds, distances): one million units.
pub const COORD_LIMIT: i64 = 1_000_000_000;

/// Magnitude bound on the factors of a fixed-point product: the integer
/// product of two such factors still fits in an `i64`.
pub const FACTOR_LIMIT: i64 = 3_000_000_000;

/// Magnitude bound on a fixed-point product of factors within
/// `FACTOR_LIMIT`: their integer product scaled down by `SCALE`.
pub const FP_RESULT_LIMIT: i64 = 9_000_000_000_000_000;

/// Truncating (round-toward-zero) division, the rounding used by all
/// fixed-point operations here. On nonnegative dividends it coincides with
/// the Euclidean `/` of specifications.
pub open spec fn div_t(a: int, b: int) -> int {
    if a >= 0 {
        a / b
    } else {
        -((-a) / b)
    }
}

/// The fixed-point product of `a` and `b`: scale the integer product back
/// down, rounding toward zero.
pub open spec fn fp(a: int, b: int) -> int {
    div_t(a * b, SCALE as int)
}

/// `x` fits in an `i64`.
pub open spec fn fits(x: int) -> bool {
    i64::MIN <= x <= i64::MAX
}

/// Truncating division is bounded by the bound of its dividend, both before
/// and after the division.
pub proof fn lemma_div_t_bound(a: int, b: int, m: int)
    requires
        b >= 1,
        -m <= a <= m,
    ensures
        -(m / b) <= div_t(a, b) <= m / b,
        -m <= div_t(a, b) <= m,
{
    if a >= 0 {
        lemma_div_pos_is_pos(a, b);
        lemma_div_is_ordered(a, m, b);
        lemma_div_pos_is_pos(m, b);
        lemma_div_nonincreasing(m, b);
    } else {
        lemma_div_pos_is_pos(-a, b);
        lemma_div_is_ordered(-a, m, b);
        lemma_div_pos_is_pos(m, b);
        lemma_div_nonincreasing(m, b);
    }
}

/// A product of bounded factors is bounded by the product of the bounds.
pub proof fn lemma_mul_bound(a: int, b: int, ma: int, mb: int)
    requires
        -ma <= a <= ma,
        -mb <= b <= mb,
    ensures
        -(ma * mb) <= a * b <= ma * mb,
{
    assert(-(ma * mb) <= a * b <= ma * mb) by (nonlinear_arith)
        requires
            -ma <= a <= ma,
            -mb <= b <= mb,
    ;
}

/// A fixed-point product of factors within `FACTOR_LIMIT` is bounded by
/// `FP_RESULT_LIMIT`.
pub proof fn lemma_fp_bound(a: int, b: int)
    requires
        -FACTOR_LIMIT <= a <= FACTOR_LIMIT,
        -FACTOR_LIMIT <= b <= FACTOR_LIMIT,
    ensures
        -FP_RESULT_LIMIT <= fp(a, b) <= FP_RESULT_LIMIT,
{
    lemma_mul_bound(a, b, FACTOR_LIMIT as int, FACTOR_LIMIT as int);
    lemma_div_t_bound(a * b, SCALE as int, FACTOR_LIMIT as int * FACTOR_LIMIT as int);
}

/// A fixed-point product of factors bounded by `ma` and `mb` is bounded by
/// the product of the bounds scaled back down.
pub proof fn lemma_fp_mul_bound(a: int, b: int, ma: int, mb: int)
    requires
        -ma <= a <= ma,
        -mb <= b <= mb,
    ensures
        -((ma * mb) / (SCALE as int)) <= fp(a, b) <= (ma * mb) / (SCALE as int),
{
    lemma_mul_bound(a, b, ma, mb);
    lemma_div_t_bound(a * b, SCALE as int, ma * mb);
}

/// Truncating division by a positive divisor. The result always fits, since
/// its magnitude never exceeds the dividend's.
pub fn div_exec(a: i64, b: i64) -> (r: i64)
    requires
        b >= 1,
    ensures
        r == div_t(a as int, b as int),
{
    proof {
        if a >= 0 {
            lemma_div_t_bound(a as int, b as int, a as int);
        } else {
            lemma_div_t_bound(a as int, b as int, -(a as int));
        }
    }
    match a.checked_div(b) {
        Some(q) => q,
        None => {
            proof {
                assert(false);
            }
            0
        },
    }
}

/// The fixed-point product, executable form of `fp`.
pub fn fp_mul(a: i64, b: i64) -> (r: i64)
    requires
        -FACTOR_LIMIT <= a <= FACTOR_LIMIT,
        -FACTOR_LIMIT <= b <= FACTOR_LIMIT,
    ensures
        r == fp(a as int, b as int),
        -FP_RESULT_LIMIT <= r <= FP_RESULT_LIMIT,
{
    proof {
        lemma_mul_bound(a as int, b as int, FACTOR_LIMIT as int, FACTOR_LIMIT as int);
        lemma_fp_bound(a as int, b as int);
    }
    let p: i64 = a * b;
    div_exec(p, SCALE)
}

/// `x` saturated into `[-m, m]`.
pub open spec fn spec_clamp(x: int, m: int) -> int {
    if x < -m {
        -m
    } else if x > m {
        m
    } else {
        x
    }
}

/// Saturates a scalar into `[-m, m]`.
pub fn clamp_magnitude(x: i64, m: i64) -> (r: i64)
    requires
        m >= 0,
    ensures
        r == spec_clamp(x as int, m as int),
        -m <= r <= m,
{
    if x < -m {
        -m
    } else if x > m {
        m
    } else {
        x
    }
}

/// A three-component fixed-point vector. The `y` axis is world-up.
#[derive(Clone, Copy, Debug, PartialEq, Eq, Structural)]
pub struct Vec3 {
    pub x: i64,
    pub y: i64,
    pub z: i64,
}

impl Vec3 {
    /// Every component has magnitude at most `m`.
    pub open spec fn bounded(self, m: int) -> bool {
        &&& -m <= self.x <= m
        &&& -m <= self.y <= m
        &&& -m <= self.z <= m
    }

    /// The zero vector.
    pub fn zero() -> (r: Vec3)
        ensures
            r == (Vec3 { x: 0, y: 0, z: 0 }),
    {
        Vec3 { x: 0, y: 0, z: 0 }
    }

    /// The world-up unit vector.
    pub fn up() -> (r: Vec3)
        ensures
            r == (Vec3 { x: 0, y: SCALE, z: 0 }),
    {
        Vec3 { x: 0, y: SCALE, z: 0 }
    }

    /// Componentwise sum.
    pub fn add(self, other: Vec3) -> (r: Vec3)
        requires
            fits(self.x + other.x),
            fits(self.y + other.y),
            fits(self.z + other.z),
        ensures
            r.x == self.x + other.x,
            r.y == self.y + other.y,
            r.z == self.z + other.z,
    {
        Vec3 { x: self.x + other.x, y: self.y + other.y, z: self.z + other.z }
    }

    /// Componentwise difference.
    pub fn sub(self, other: Vec3) -> (r: Vec3)
        requires
            fits(self.x - other.x),
            fits(self.y - other.y),
            fits(self.z - other.z),
        ensures
            r.x == self.x - other.x,
            r.y == self.y - other.y,
            r.z == self.z - other.z,
    {
        Vec3 { x: self.x - other.x, y: self.y - other.y, z: self.z - other.z }
    }

    /// Fixed-point scaling of every component by `s`.
    pub fn smul(self, s: i64) -> (r: Vec3)
        requires
            self.bounded(FACTOR_LIMIT as int),
            -FACTOR_LIMIT <= s <= FACTOR_LIMIT,
        ensures
            r == spec_smul(self, s),
            r.bounded(FP_RESULT_LIMIT as int),
    {
        Vec3 { x: fp_mul(self.x, s), y: fp_mul(self.y, s), z: fp_mul(self.z, s) }
    }

    /// The fixed-point dot product: the sum of the three componentwise
    /// fixed-point products.
    pub fn dot(self, other: Vec3) -> (r: i64)
        requires
            self.bounded(FACTOR_LIMIT as int),
            other.bounded(FACTOR_LIMIT as int),
        ensures
            r == spec_dot(self, other),
            -3 * FP_RESULT_LIMIT <= r <= 3 * FP_RESULT_LIMIT,
    {
        let px: i64 = fp_mul(self.x, other.x);
        let py: i64 = fp_mul(self.y, other.y);
        let pz: i64 = fp_mul(self.z, other.z);
        px + py + pz
    }

    /// The fixed-point cross product, each component a difference of two
    /// componentwise fixed-point products.
    pub fn cross(self, other: Vec3) -> (r: Vec3)
        requires
            self.bounded(FACTOR_LIMIT as int),
            other.bounded(FACTOR_LIMIT as int),
        ensures
            r == spec_cross(self, other),
            r.bounded(2 * FP_RESULT_LIMIT as int),
    {
        Vec3 {
            x: fp_mul(self.y, other.z) - fp_mul(self.z, other.y),
            y: fp_mul(self.z, other.x) - fp_mul(self.x, other.z),
            z: fp_mul(self.x, other.y) - fp_mul(self.y, other.x),
        }
    }
}

/// The integer square root: the largest `r` with `r * r <= n`.
pub open spec fn sqrt_floor(n: nat) -> nat
    decreases n,
{
    if n == 0 {
        0
    } else {
        let p = sqrt_floor((n - 1) as nat);
        if (p + 1) * (p + 1) <= n {
            p + 1
        } else {
            p
        }
    }
}

/// `sqrt_floor` brackets its argument between consecutive squares and
/// never exceeds it.
pub proof fn lemma_sqrt_floor(n: nat)
    ensures
        sqrt_floor(n) * sqrt_floor(n) <= n,
        n < (sqrt_floor(n) + 1) * (sqrt_floor(n) + 1),
        sqrt_floor(n) <= n,
    decreases n,
{
    if n > 0 {
        let p = sqrt_floor((n - 1) as nat);
        lemma_sqrt_floor((n - 1) as nat);
        if (p + 1) * (p + 1) <= n {
            assert(sqrt_floor(n) == p + 1);
            assert(n < (p + 2) * (p + 2)) by (nonlinear_arith)
                requires
                    n - 1 < (p + 1) * (p + 1),
            ;
            assert(p + 1 <= (p + 1) * (p + 1)) by (nonlinear_arith);
            assert((p + 2) * (p + 2) == (sqrt_floor(n) + 1) * (sqrt_floor(n) + 1));
        } else {
            assert(sqrt_floor(n) == p);
        }
    } else {
        assert(sqrt_floor(n) == 0);
        assert(sqrt_floor(n) * sqrt_floor(n) <= n) by (nonlinear_arith)
            requires
                n == 0nat,
                sqrt_floor(n) == 0,
        ;
        assert(n < (sqrt_floor(n) + 1) * (sqrt_floor(n) + 1)) by (nonlinear_arith)
            requires
                n == 0nat,
                sqrt_floor(n) == 0,
        ;
    }
}

/// Any `r` bracketed between the consecutive squares around `n` is the
/// integer square root of `n`.
pub proof fn lemma_sqrt_floor_unique(n: nat, r: nat)
    requires
        r * r <= n,
        n < (r + 1) * (r + 1),
    ensures
        r == sqrt_floor(n),
{
    let s = sqrt_floor(n);
    lemma_sqrt_floor(n);
    if r < s {
        assert((r + 1) * (r + 1) <= s * s) by (nonlinear_arith)
            requires
                r + 1 <= s,
        ;
    }
    if s < r {
        assert((s + 1) * (s + 1) <= r * r) by (nonlinear_arith)
            requires
                s + 1 <= r,
        ;
    }
}

/// The integer square root, by bisection on the bracketing invariant.
pub fn isqrt(n: u64) -> (r: u64)
    ensures
        r == sqrt_floor(n as nat),
        r * r <= n,
        (r + 1) * (r + 1) > n,
{
    let mut lo: u64 = 0;
    let mut hi: u64 = 4_294_967_296;
    proof {
        assert((hi as int) * (hi as int) == 18_446_744_073_709_551_616) by (nonlinear_arith)
            requires
                hi == 4_294_967_296,
        ;
    }
    while lo + 1 < hi
        invariant
            0 <= lo < hi <= 4_294_967_296,
            (lo as int) * (lo as int) <= n as int,
            (hi as int) * (hi as int) > n as int,
        decreases hi - lo,
    {
        let mid: u64 = lo + (hi - lo) / 2;
        proof {
            assert((mid as int) * (mid as int) <= (4_294_967_295 as int) * (4_294_967_295 as int))
                by (nonlinear_arith)
                requires
                    0 <= mid < 4_294_967_296,
            ;
        }
        if mid * mid <= n {
            lo = mid;
        } else {
            hi = mid;
        }
    }
    proof {
        lemma_sqrt_floor_unique(n as nat, lo as nat);
    }
    lo
}

/// The length of a vector, in the same thousandths as its components: the
/// integer square root of the sum of the squared components.
pub open spec fn spec_norm(v: Vec3) -> int {
    sqrt_floor((v.x * v.x + v.y * v.y + v.z * v.z) as nat) as int
}

/// What `Vec3::normalize_or_zero` returns: the zero vector unchanged, and
/// any other vector scaled to (fixed-point) unit length, each component
/// multiplied by `SCALE` and divided by the length, rounding toward zero.
pub open spec fn spec_normalize(v: Vec3) -> Vec3 {
    if v == (Vec3 { x: 0, y: 0, z: 0 }) {
        v
    } else {
        Vec3 {
            x: div_t(v.x * SCALE, spec_norm(v)) as i64,
            y: div_t(v.y * SCALE, spec_norm(v)) as i64,
            z: div_t(v.z * SCALE, spec_norm(v)) as i64,
        }
    }
}

impl Vec3 {
    /// Scales the vector to unit length, rounding each component toward
    /// zero; the zero vector stays zero.
    pub fn normalize_or_zero(self) -> (r: Vec3)
        requires
            self.bounded(COORD_LIMIT as int),
        ensures
            r == spec_normalize(self),
            r.bounded(SCALE as int),
    {
        if self.x == 0 && self.y == 0 && self.z == 0 {
            Vec3 { x: 0, y: 0, z: 0 }
        } else {
            proof {
                lemma_mul_bound(self.x as int, self.x as int, COORD_LIMIT as int, COORD_LIMIT as int);
                lemma_mul_bound(self.y as int, self.y as int, COORD_LIMIT as int, COORD_LIMIT as int);
                lemma_mul_bound(self.z as int, self.z as int, COORD_LIMIT as int, COORD_LIMIT as int);
                assert(self.x * self.x >= 0) by (nonlinear_arith);
                assert(self.y * self.y >= 0) by (nonlinear_arith);
                assert(self.z * self.z >= 0) by (nonlinear_arith);
                assert(self.x != 0 ==> self.x * self.x >= 1) by (nonlinear_arith);
                assert(self.y != 0 ==> self.y * self.y >= 1) by (nonlinear_arith);
                assert(self.z != 0 ==> self.z * self.z >= 1) by (nonlinear_arith);
            }
            let sx: i64 = self.x * self.x;
            let sy: i64 = self.y * self.y;
            let sz: i64 = self.z * self.z;
            let s: u64 = (sx + sy + sz) as u64;
            let len64: u64 = isqrt(s);
            proof {
                lemma_sqrt_floor(s as nat);
                if len64 == 0 {
                    assert((sqrt_floor(s as nat) + 1) * (sqrt_floor(s as nat) + 1) == 1)
                        by (nonlinear_arith)
                        requires
                            sqrt_floor(s as nat) == 0,
                    ;
                }
                assert(len64 >= 1);
                lemma_norm_dominates_components(self, s as nat);
            }
            let len: i64 = len64 as i64;
            let r = Vec3 {
                x: div_exec(self.x * SCALE, len),
                y: div_exec(self.y * SCALE, len),
                z: div_exec(self.z * SCALE, len),
            };
            proof {
                lemma_scaled_component_bound(self.x as int, len as int);
                lemma_scaled_component_bound(self.y as int, len as int);
                lemma_scaled_component_bound(self.z as int, len as int);
            }
            r
        }
    }
}

/// Each component's magnitude is at most the vector's length, and the
/// length of a bounded vector is itself bounded.
proof fn lemma_norm_dominates_components(v: Vec3, s: nat)
    requires
        s == v.x * v.x + v.y * v.y + v.z * v.z,
        v.bounded(COORD_LIMIT as int),
    ensures
        -spec_norm(v) <= v.x <= spec_norm(v),
        -spec_norm(v) <= v.y <= spec_norm(v),
        -spec_norm(v) <= v.z <= spec_norm(v),
        spec_norm(v) <= 2 * COORD_LIMIT,
{
    let n = spec_norm(v);
    lemma_sqrt_floor(s);
    assert(v.x * v.x <= s && v.y * v.y <= s && v.z * v.z <= s) by (nonlinear_arith)
        requires
            s == v.x * v.x + v.y * v.y + v.z * v.z,
    ;
    lemma_square_within(v.x as int, s, n);
    lemma_square_within(v.y as int, s, n);
    lemma_square_within(v.z as int, s, n);
    if n > 2 * COORD_LIMIT {
        assert((2 * COORD_LIMIT as int) * (2 * COORD_LIMIT as int) < n * n) by (nonlinear_arith)
            requires
                n > 2 * COORD_LIMIT,
        ;
        lemma_mul_bound(v.x as int, v.x as int, COORD_LIMIT as int, COORD_LIMIT as int);
        lemma_mul_bound(v.y as int, v.y as int, COORD_LIMIT as int, COORD_LIMIT as int);
        lemma_mul_bound(v.z as int, v.z as int, COORD_LIMIT as int, COORD_LIMIT as int);
    }
}

/// A number whose square is below `(n + 1)^2` lies within `n` of zero.
proof fn lemma_square_within(c: int, s: nat, n: int)
    requires
        n >= 0,
        c * c <= s,
        s < (n + 1) * (n + 1),
    ensures
        -n <= c <= n,
{
    if c > n || c < -n {
        assert((n + 1) * (n + 1) <= c * c) by (nonlinear_arith)
            requires
                c > n || c < -n,
                n >= 0,
        ;
    }
}

/// A component scaled by `SCALE` and divided by a length at least as large
/// stays within `SCALE`.
proof fn lemma_scaled_component_bound(c: int, len: int)
    requires
        len >= 1,
        -len <= c <= len,
    ensures
        -(SCALE as int) <= div_t(c * SCALE, len) <= SCALE as int,
{
    lemma_mul_bound(c, SCALE as int, len, SCALE as int);
    lemma_div_t_bound(c * SCALE, len, len * SCALE);
    assert((len * SCALE) / len == SCALE) by (nonlinear_arith)
        requires
            len >= 1,
    ;
}

/// What `Vec3::smul` returns.
pub open spec fn spec_smul(a: Vec3, s: i64) -> Vec3 {
    Vec3 { x: fp(a.x as int, s as int) as i64, y: fp(a.y as int, s as int) as i64, z: fp(
        a.z as int,
        s as int,
    ) as i64 }
}

/// What `Vec3::dot` returns.
pub open spec fn spec_dot(a: Vec3, b: Vec3) -> int {
    fp(a.x as int, b.x as int) + fp(a.y as int, b.y as int) + fp(a.z as int, b.z as int)
}

/// What `Vec3::cross` returns.
pub open spec fn spec_cross(a: Vec3, b: Vec3) -> Vec3 {
    Vec3 {
        x: (fp(a.y as int, b.z as int) - fp(a.z as int, b.y as int)) as i64,
        y: (fp(a.z as int, b.x as int) - fp(a.x as int, b.z as int)) as i64,
        z: (fp(a.x as int, b.y as int) - fp(a.y as int, b.x as int)) as i64,
    }
}

} // verus!
