//! Fixed-point scalars and vectors.
//!
//! World lengths are held in milli-units: an `i64` coordinate of 1000 is one
//! world unit. Velocities are milli-units per second. All of the game's
//! arithmetic is exact integer arithmetic over this representation; the shell
//! converts to and from its floating-point vectors at the boundary.

use vstd::prelude::*;

use vstd::arithmetic::div_mod::{
    lemma_div_nonincreasing, lemma_div_pos_is_pos, lemma_fundamental_div_mod,
    lemma_mod_multiples_basic,
};
use vstd::arithmetic::mul::{
    lemma_mul_equality_converse, lemma_mul_is_commutative, lemma_mul_unary_negation,
};
use vstd::math::abs;

verus! {

/// Milli-units per world unit.
pub const SCALE: i64 = 1000;

/// Largest coordinate magnitude the library computes with, in milli-units
/// (one million world units). Every position handed in by the shell is far
/// inside this bound; it exists so that squares and products of coordinates
/// provably fit in the machine integers.
pub const COORD_LIMIT: i64 = 1_000_000_000;

/// Largest speed the library computes with, in milli-units per second.
pub const SPEED_LIMIT: i64 = 1_000_000;

/// Integer division rounding toward zero, the rounding of the executable
/// `/` on machine integers.
pub open spec fn div_trunc(p: int, d: int) -> int {
    if p >= 0 {
        p / d
    } else {
        -((-p) / d)
    }
}

/// `a * b / d` rounded toward zero: the exact result of scaling by the
/// ratio `b / d` in fixed point.
pub open spec fn mul_div(a: int, b: int, d: int) -> int {
    div_trunc(a * b, d)
}

/// Rounding toward zero never grows the magnitude and never flips the sign.
pub proof fn lemma_div_trunc_bound(p: int, d: int)
    requires
        0 < d,
    ensures
        p >= 0 ==> 0 <= div_trunc(p, d) <= p,
        p < 0 ==> p <= div_trunc(p, d) <= 0,
{
    if p >= 0 {
        lemma_div_pos_is_pos(p, d);
        lemma_div_nonincreasing(p, d);
    } else {
        lemma_div_pos_is_pos(-p, d);
        lemma_div_nonincreasing(-p, d);
    }
}

/// Rounding toward zero is odd-symmetric: negating the dividend negates the
/// quotient.
pub proof fn lemma_div_trunc_neg(p: int, d: int)
    requires
        0 < d,
    ensures
        div_trunc(-p, d) == -div_trunc(p, d),
{
}

/// When the divisor divides exactly, truncation loses nothing.
pub proof fn lemma_div_trunc_exact(p: int, d: int)
    requires
        0 < d,
        p % d == 0,
    ensures
        div_trunc(p, d) * d == p,
{
    lemma_fundamental_div_mod(p, d);
    let q: int = p / d;
    assert(p == d * q);
    if p >= 0 {
        lemma_mul_is_commutative(d, q);
    } else {
        assert(-p == d * -q) by {
            lemma_mul_unary_negation(d, q);
        }
        assert((-q) * d == -p) by {
            lemma_mul_is_commutative(d, -q);
        }
        lemma_mod_multiples_basic(-q, d);
        assert((-p) % d == 0);
        lemma_fundamental_div_mod(-p, d);
        assert(d * ((-p) / d) == d * -q);
        lemma_mul_equality_converse(d, (-p) / d, -q);
        assert((-p) / d == -q);
        lemma_mul_is_commutative(d, q);
    }
}

/// What truncation can lose: the quotient times the divisor falls short of
/// the dividend by less than the divisor, on either side of zero.
pub proof fn lemma_div_trunc_error(p: int, d: int)
    requires
        0 < d,
    ensures
        p >= 0 ==> p - d < div_trunc(p, d) * d <= p,
        p < 0 ==> p <= div_trunc(p, d) * d < p + d,
{
    if p >= 0 {
        lemma_fundamental_div_mod(p, d);
        lemma_mul_is_commutative(d, p / d);
    } else {
        lemma_fundamental_div_mod(-p, d);
        lemma_mul_is_commutative(d, (-p) / d);
        assert(div_trunc(p, d) * d == -(((-p) / d) * d)) by {
            lemma_mul_unary_negation((-p) / d, d);
        }
    }
}

/// `a * b / d` in machine integers, rounding toward zero.
pub fn mul_div_i64(a: i64, b: i64, d: i64) -> (r: i64)
    requires
        0 < d,
        -0x7fff_ffff_ffff_ffff <= a * b <= 0x7fff_ffff_ffff_ffff,
    ensures
        r == mul_div(a as int, b as int, d as int),
{
    let p: i64 = a * b;
    if p >= 0 {
        let q: u64 = (p as u64) / (d as u64);
        proof {
            lemma_div_nonincreasing(p as int, d as int);
            lemma_div_pos_is_pos(p as int, d as int);
        }
        q as i64
    } else {
        let np: u64 = (-p) as u64;
        let q: u64 = np / (d as u64);
        proof {
            lemma_div_nonincreasing(np as int, d as int);
            lemma_div_pos_is_pos(np as int, d as int);
        }
        -(q as i64)
    }
}

/// A world-space vector in milli-units.
#[derive(Clone, Copy, Debug, PartialEq, Eq, Structural)]
pub struct Vec3Fx {
    pub x: i64,
    pub y: i64,
    pub z: i64,
}

/// All three coordinates within [`COORD_LIMIT`].
pub open spec fn spec_in_coord_range(v: Vec3Fx) -> bool {
    &&& -COORD_LIMIT <= v.x <= COORD_LIMIT
    &&& -COORD_LIMIT <= v.y <= COORD_LIMIT
    &&& -COORD_LIMIT <= v.z <= COORD_LIMIT
}

/// The squared Euclidean length.
pub open spec fn spec_norm_sq(v: Vec3Fx) -> int {
    v.x * v.x + v.y * v.y + v.z * v.z
}

/// Components of the cross product of two vectors; all three are zero
/// exactly when the vectors are parallel.
pub open spec fn spec_cross_x(a: Vec3Fx, b: Vec3Fx) -> int {
    a.y * b.z - a.z * b.y
}

pub open spec fn spec_cross_y(a: Vec3Fx, b: Vec3Fx) -> int {
    a.z * b.x - a.x * b.z
}

pub open spec fn spec_cross_z(a: Vec3Fx, b: Vec3Fx) -> int {
    a.x * b.y - a.y * b.x
}

impl Vec3Fx {
    /// Componentwise sum.
    pub fn plus(self, other: Vec3Fx) -> (r: Self)
        requires
            -0x7fff_ffff_ffff_ffff <= self.x + other.x <= 0x7fff_ffff_ffff_ffff,
            -0x7fff_ffff_ffff_ffff <= self.y + other.y <= 0x7fff_ffff_ffff_ffff,
            -0x7fff_ffff_ffff_ffff <= self.z + other.z <= 0x7fff_ffff_ffff_ffff,
        ensures
            r == (Vec3Fx { x: (self.x + other.x) as i64, y: (self.y + other.y) as i64, z: (self.z
                + other.z) as i64 }),
    {
        Vec3Fx { x: self.x + other.x, y: self.y + other.y, z: self.z + other.z }
    }

    /// Componentwise difference.
    pub fn minus(self, other: Vec3Fx) -> (r: Self)
        requires
            -0x7fff_ffff_ffff_ffff <= self.x - other.x <= 0x7fff_ffff_ffff_ffff,
            -0x7fff_ffff_ffff_ffff <= self.y - other.y <= 0x7fff_ffff_ffff_ffff,
            -0x7fff_ffff_ffff_ffff <= self.z - other.z <= 0x7fff_ffff_ffff_ffff,
        ensures
            r == (Vec3Fx { x: (self.x - other.x) as i64, y: (self.y - other.y) as i64, z: (self.z
                - other.z) as i64 }),
    {
        Vec3Fx { x: self.x - other.x, y: self.y - other.y, z: self.z - other.z }
    }

    /// Scale by the ratio `num / den`, each component rounded toward zero.
    pub fn scaled_ratio(self, num: i64, den: i64) -> (r: Self)
        requires
            0 < den,
            -0x7fff_ffff_ffff_ffff <= self.x * num <= 0x7fff_ffff_ffff_ffff,
            -0x7fff_ffff_ffff_ffff <= self.y * num <= 0x7fff_ffff_ffff_ffff,
            -0x7fff_ffff_ffff_ffff <= self.z * num <= 0x7fff_ffff_ffff_ffff,
        ensures
            r.x == mul_div(self.x as int, num as int, den as int),
            r.y == mul_div(self.y as int, num as int, den as int),
            r.z == mul_div(self.z as int, num as int, den as int),
    {
        Vec3Fx {
            x: mul_div_i64(self.x, num, den),
            y: mul_div_i64(self.y, num, den),
            z: mul_div_i64(self.z, num, den),
        }
    }
}

/// The magnitude of `x` as an unsigned machine integer.
fn abs_i64(x: i64) -> (r: u64)
    requires
        -0x7fff_ffff_ffff_ffff <= x,
    ensures
        r == abs(x as int),
{
    if x >= 0 {
        x as u64
    } else {
        (-x) as u64
    }
}

/// The squared Euclidean length, as a machine integer.
pub fn norm_sq_u64(v: Vec3Fx) -> (r: u64)
    requires
        spec_in_coord_range(v),
    ensures
        r == spec_norm_sq(v),
{
    let ax: u64 = abs_i64(v.x);
    let ay: u64 = abs_i64(v.y);
    let az: u64 = abs_i64(v.z);
    proof {
        assert(ax * ax == v.x * v.x && ax * ax <= 0x0de0_b6b3_a764_0000) by (nonlinear_arith)
            requires
                ax == abs(v.x as int),
                ax <= 1_000_000_000,
        ;
        assert(ay * ay == v.y * v.y && ay * ay <= 0x0de0_b6b3_a764_0000) by (nonlinear_arith)
            requires
                ay == abs(v.y as int),
                ay <= 1_000_000_000,
        ;
        assert(az * az == v.z * v.z && az * az <= 0x0de0_b6b3_a764_0000) by (nonlinear_arith)
            requires
                az == abs(v.z as int),
                az <= 1_000_000_000,
        ;
    }
    ax * ax + ay * ay + az * az
}

/// The integer square root: the largest `r` with `r * r <= m`.
pub open spec fn spec_isqrt(m: nat) -> nat
    decreases m,
{
    if m == 0 {
        0
    } else {
        let r: nat = spec_isqrt((m - 1) as nat);
        if (r + 1) * (r + 1) <= m {
            r + 1
        } else {
            r
        }
    }
}

/// The integer square root is what its name says: its square is at most `m`,
/// and the next square is beyond `m`.
pub proof fn lemma_isqrt_bounds(m: nat)
    ensures
        spec_isqrt(m) * spec_isqrt(m) <= m,
        m < (spec_isqrt(m) + 1) * (spec_isqrt(m) + 1),
    decreases m,
{
    if m == 0 {
        assert(spec_isqrt(0) == 0);
        assert(spec_isqrt(m) * spec_isqrt(m) <= m);
        assert(m < (spec_isqrt(m) + 1) * (spec_isqrt(m) + 1)) by (nonlinear_arith)
            requires
                m == 0,
                spec_isqrt(m) == 0,
        ;
    } else {
        lemma_isqrt_bounds((m - 1) as nat);
        let r: nat = spec_isqrt((m - 1) as nat);
        if (r + 1) * (r + 1) <= m {
            assert(spec_isqrt(m) == r + 1);
            assert(m < (r + 1 + 1) * (r + 1 + 1)) by (nonlinear_arith)
                requires
                    m <= (r + 1) * (r + 1),
            ;
        } else {
            assert(spec_isqrt(m) == r);
        }
    }
}

/// Nothing else satisfies the integer-square-root bounds.
pub proof fn lemma_isqrt_unique(m: nat, r: nat)
    requires
        r * r <= m,
        m < (r + 1) * (r + 1),
    ensures
        r == spec_isqrt(m),
{
    lemma_isqrt_bounds(m);
    let s: nat = spec_isqrt(m);
    if r < s {
        assert((r + 1) * (r + 1) <= s * s) by (nonlinear_arith)
            requires
                r + 1 <= s,
        ;
    } else if s < r {
        assert((s + 1) * (s + 1) <= r * r) by (nonlinear_arith)
            requires
                s + 1 <= r,
        ;
    }
}

/// The integer square root, by bisection.
pub fn isqrt_u64(m: u64) -> (r: u64)
    ensures
        r == spec_isqrt(m as nat),
{
    let mut lo: u64 = 0;
    let mut hi: u64 = 0x1_0000_0000;
    while lo + 1 < hi
        invariant
            lo < hi <= 0x1_0000_0000,
            lo * lo <= m,
            m < hi * hi,
        decreases hi - lo,
    {
        let mid: u64 = lo + (hi - lo) / 2;
        proof {
            assert(mid * mid <= 0xffff_ffff * 0xffff_ffff) by (nonlinear_arith)
                requires
                    mid <= 0xffff_ffff,
            ;
        }
        if mid * mid <= m {
            lo = mid;
        } else {
            hi = mid;
        }
    }
    proof {
        lemma_isqrt_unique(m as nat, lo as nat);
    }
    lo
}

} // verus!
