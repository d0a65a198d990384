//! Fixed-point scalar, vector and matrix arithmetic.
//!
//! Real-valued quantities are held in two's-complement fixed point with
//! [`FX`] units per 1.0.  Divisions are exact floor divisions (Euclidean
//! division by a positive divisor), so every operation here has an exact
//! integer specification.

use vstd::arithmetic::div_mod::{
    lemma_fundamental_div_mod, lemma_fundamental_div_mod_converse,
};
use vstd::prelude::*;

verus! {

/// Fixed-point scale: `FX` units stand for 1.0.
pub const FX: i64 = 65536;

/// Sub-pixel scale: `SUB` screen-coordinate units stand for one pixel.
pub const SUB: i64 = 256;

/// Magnitude bound on sub-pixel screen coordinates (4096 pixels).
pub const COORD_MAX: i64 = 1048576;

/// Magnitude bound on the fixed-point clip-space `z` and `w` components.
pub const ZW_MAX: i64 = 17179869184;

/// Magnitude bound on vector components fed to dot products and normalization.
pub const NORM_MAX: i64 = 1073741824;

/// Magnitude bound on interpolated fixed-point attribute values.
pub const VAL_MAX: i64 = 4294967296;

/// Magnitude bound on fixed-point matrix entries.
pub const MAT_MAX: i64 = 16777216;

/// Magnitude bound on vector components fed to a matrix transform.
pub const VEC_IN_MAX: i64 = 262144;

/// A 2-vector of fixed-point components.
#[derive(Clone, Copy, Debug, PartialEq, Eq, Structural)]
pub struct Vec2Fx {
    pub x: i64,
    pub y: i64,
}

/// A 3-vector of fixed-point components.
#[derive(Clone, Copy, Debug, PartialEq, Eq, Structural)]
pub struct Vec3Fx {
    pub x: i64,
    pub y: i64,
    pub z: i64,
}

/// A 4x4 matrix of fixed-point entries, row major: `mRC` is row R, column C.
#[derive(Clone, Copy, Debug, PartialEq, Eq, Structural)]
pub struct Mat4Fx {
    pub m00: i64, pub m01: i64, pub m02: i64, pub m03: i64,
    pub m10: i64, pub m11: i64, pub m12: i64, pub m13: i64,
    pub m20: i64, pub m21: i64, pub m22: i64, pub m23: i64,
    pub m30: i64, pub m31: i64, pub m32: i64, pub m33: i64,
}

impl Vec3Fx {
    pub open spec fn abs_within(self, bound: int) -> bool {
        -bound <= self.x <= bound && -bound <= self.y <= bound && -bound <= self.z <= bound
    }

    /// The zero vector.
    pub fn zero() -> (v: Vec3Fx)
        ensures
            v == (Vec3Fx { x: 0, y: 0, z: 0 }),
    {
        Vec3Fx { x: 0, y: 0, z: 0 }
    }
}

impl Mat4Fx {
    pub open spec fn abs_within(self, bound: int) -> bool {
        &&& -bound <= self.m00 <= bound && -bound <= self.m01 <= bound
        &&& -bound <= self.m02 <= bound && -bound <= self.m03 <= bound
        &&& -bound <= self.m10 <= bound && -bound <= self.m11 <= bound
        &&& -bound <= self.m12 <= bound && -bound <= self.m13 <= bound
        &&& -bound <= self.m20 <= bound && -bound <= self.m21 <= bound
        &&& -bound <= self.m22 <= bound && -bound <= self.m23 <= bound
        &&& -bound <= self.m30 <= bound && -bound <= self.m31 <= bound
        &&& -bound <= self.m32 <= bound && -bound <= self.m33 <= bound
    }
}

/// Zero for negative values, the value itself otherwise.
pub open spec fn max0(v: int) -> int {
    if v < 0 { 0 } else { v }
}

/// A fixed-point vector from a component triple (faithful when each
/// component fits in the machine word).
pub open spec fn vec3fx_of(t: (int, int, int)) -> Vec3Fx {
    Vec3Fx { x: t.0 as i64, y: t.1 as i64, z: t.2 as i64 }
}

/// Floor division by a positive divisor equals ceiling division of the
/// negated dividend, negated: `(-m) / b == -((m + b - 1) / b)`.
proof fn lemma_neg_div(m: int, b: int)
    requires
        0 <= m,
        0 < b,
    ensures
        (-m) / b == -((m + b - 1) / b),
{
    let q = m / b;
    let r = m % b;
    lemma_fundamental_div_mod(m, b);
    assert((q + 1) * b == q * b + b) by (nonlinear_arith);
    assert((-q) * b == -(q * b)) by (nonlinear_arith);
    assert((-q - 1) * b == -(q * b) - b) by (nonlinear_arith);
    if r == 0 {
        lemma_fundamental_div_mod_converse(m + b - 1, b, q, b - 1);
        lemma_fundamental_div_mod_converse(-m, b, -q, 0);
    } else {
        lemma_fundamental_div_mod_converse(m + b - 1, b, q + 1, r - 1);
        lemma_fundamental_div_mod_converse(-m, b, -q - 1, b - r);
    }
}

/// Floor division of `a` by a positive divisor `b`; equals the Euclidean
/// quotient `a / b` of the specification language.
pub fn div_floor(a: i128, b: i128) -> (q: i128)
    requires
        0 < b,
        -0x10000000000000000000000000 <= a <= 0x10000000000000000000000000,
    ensures
        q == a as int / b as int,
{
    if a >= 0 {
        let q = (a as u128) / (b as u128);
        q as i128
    } else {
        let m = (-a) as u128;
        let bu = b as u128;
        let q = (m + (bu - 1)) / bu;
        proof {
            lemma_neg_div(m as int, b as int);
            assert(0 <= (m as int + bu as int - 1) / (bu as int) <= m as int) by {
                vstd::arithmetic::div_mod::lemma_div_pos_is_pos(
                    m as int + bu as int - 1, bu as int);
                vstd::arithmetic::div_mod::lemma_div_plus_one(m as int - 1, bu as int);
                vstd::arithmetic::div_mod::lemma_div_nonincreasing(m as int - 1, bu as int);
            }
        }
        -(q as i128)
    }
}

/// `x < k * d` gives `x / d < k` for positive `d` and nonnegative `x`.
pub proof fn lemma_div_strict_bound(x: int, k: int, d: int)
    requires
        0 < d,
        0 <= x,
        x < k * d,
    ensures
        x / d < k,
{
    assert(k * d - 1 == (k - 1) * d + (d - 1)) by (nonlinear_arith);
    lemma_fundamental_div_mod_converse(k * d - 1, d, k - 1, d - 1);
    vstd::arithmetic::div_mod::lemma_div_is_ordered(x, k * d - 1, d);
}

/// A floor square root: `r * r <= n < (r + 1) * (r + 1)`.
pub open spec fn is_sqrt(n: int, r: int) -> bool {
    0 <= r && r * r <= n && n < (r + 1) * (r + 1)
}

/// The floor square root of a nonnegative integer, as a specification value.
pub open spec fn sqrt_floor(n: int) -> int {
    choose|r: int| is_sqrt(n, r)
}

/// The floor square root is unique.
pub proof fn lemma_sqrt_unique(n: int, a: int, b: int)
    requires
        is_sqrt(n, a),
        is_sqrt(n, b),
    ensures
        a == b,
{
    if a < b {
        assert((a + 1) * (a + 1) <= b * b) by (nonlinear_arith)
            requires 0 <= a, 0 <= b, a < b;
    }
    if b < a {
        assert((b + 1) * (b + 1) <= a * a) by (nonlinear_arith)
            requires 0 <= a, 0 <= b, b < a;
    }
}

/// The floor square root, by binary search.
pub fn isqrt(n: u64) -> (r: u64)
    ensures
        is_sqrt(n as int, r as int),
        r as int == sqrt_floor(n as int),
{
    let mut lo: u64 = 0;
    let mut hi: u64 = 4294967296;
    proof {
        assert((4294967296int) * 4294967296 > u64::MAX);
    }
    while lo + 1 < hi
        invariant
            lo < hi <= 4294967296,
            lo * lo <= n,
            n < hi * hi,
        decreases hi - lo,
    {
        let mid: u64 = lo + (hi - lo) / 2;
        assert(lo < mid < hi);
        proof {
            assert((mid as int) * (mid as int) <= 0x10000000000000000) by (nonlinear_arith)
                requires 0 <= mid <= 0x100000000;
        }
        let sq: u128 = (mid as u128) * (mid as u128);
        if sq <= n as u128 {
            lo = mid;
        } else {
            hi = mid;
        }
    }
    proof {
        assert(hi == lo + 1);
        assert(is_sqrt(n as int, lo as int));
        lemma_sqrt_unique(n as int, lo as int, sqrt_floor(n as int));
    }
    lo
}

/// The fixed-point dot product of two 3-vectors.
pub open spec fn dot_fx_spec(a: Vec3Fx, b: Vec3Fx) -> int {
    (a.x * b.x + a.y * b.y + a.z * b.z) / (FX as int)
}

/// Fixed-point dot product; exact floor of the rational dot product.
pub fn dot_fx(a: &Vec3Fx, b: &Vec3Fx) -> (r: i64)
    requires
        a.abs_within(NORM_MAX as int),
        b.abs_within(NORM_MAX as int),
    ensures
        r == dot_fx_spec(*a, *b),
        -0x400000000000 <= r <= 0x400000000000,
{
    proof {
        assert(-0x1000000000000000 <= (a.x as int) * (b.x as int) <= 0x1000000000000000
            && -0x1000000000000000 <= (a.y as int) * (b.y as int) <= 0x1000000000000000
            && -0x1000000000000000 <= (a.z as int) * (b.z as int) <= 0x1000000000000000)
            by (nonlinear_arith)
            requires
                -0x40000000 <= a.x <= 0x40000000, -0x40000000 <= b.x <= 0x40000000,
                -0x40000000 <= a.y <= 0x40000000, -0x40000000 <= b.y <= 0x40000000,
                -0x40000000 <= a.z <= 0x40000000, -0x40000000 <= b.z <= 0x40000000;
    }
    let s: i128 = (a.x as i128) * (b.x as i128) + (a.y as i128) * (b.y as i128)
        + (a.z as i128) * (b.z as i128);
    let q = div_floor(s, FX as i128);
    proof {
        lemma_div_range(s as int, 0x3000000000000000, FX as int);
    }
    q as i64
}

/// `|a| <= m` gives `-(m / d) - 1 <= a / d <= m / d` for positive `d`.
pub proof fn lemma_div_range(a: int, m: int, d: int)
    requires
        0 < d,
        0 <= m,
        -m <= a <= m,
    ensures
        -(m / d) - 1 <= a / d <= m / d,
{
    vstd::arithmetic::div_mod::lemma_div_is_ordered(a, m, d);
    vstd::arithmetic::div_mod::lemma_div_is_ordered(-m, a, d);
    lemma_neg_div(m, d);
    vstd::arithmetic::div_mod::lemma_div_is_ordered(m + d - 1, m + d, d);
    vstd::arithmetic::div_mod::lemma_div_plus_one(m, d);
}

/// A dot product with a unit-bounded right side is bounded by three times
/// the left side's bound.
pub proof fn lemma_dot_fx_bound(a: Vec3Fx, b: Vec3Fx, m: int)
    requires
        0 <= m,
        a.abs_within(m),
        b.abs_within(FX as int),
    ensures
        -3 * m - 1 <= dot_fx_spec(a, b) <= 3 * m,
{
    assert(-(m * (FX as int)) <= a.x * b.x <= m * (FX as int)
        && -(m * (FX as int)) <= a.y * b.y <= m * (FX as int)
        && -(m * (FX as int)) <= a.z * b.z <= m * (FX as int)) by (nonlinear_arith)
        requires
            0 <= m,
            -m <= a.x <= m, -m <= a.y <= m, -m <= a.z <= m,
            -(FX as int) <= b.x <= FX as int,
            -(FX as int) <= b.y <= FX as int,
            -(FX as int) <= b.z <= FX as int;
    let s = a.x * b.x + a.y * b.y + a.z * b.z;
    assert((3 * m) * (FX as int) == 3 * (m * (FX as int))) by (nonlinear_arith);
    lemma_div_range(s, (3 * m) * (FX as int), FX as int);
    lemma_fundamental_div_mod_converse((3 * m) * (FX as int), FX as int, 3 * m, 0);
}

/// Squared length of a fixed-point vector (no rescaling).
pub open spec fn norm_sq_spec(v: Vec3Fx) -> int {
    v.x * v.x + v.y * v.y + v.z * v.z
}

/// One component of a normalized vector: `c * FX / len`, or 0 for the zero
/// vector.
pub open spec fn normalize_comp_spec(c: int, len: int) -> int {
    if len == 0 { 0 } else { c * (FX as int) / len }
}

/// The fixed-point normalization of `v`: each component becomes
/// `c * FX / sqrt_floor(|v|^2)`.
pub open spec fn normalize_fx_spec(v: Vec3Fx) -> (int, int, int) {
    let len = sqrt_floor(norm_sq_spec(v));
    (
        normalize_comp_spec(v.x as int, len),
        normalize_comp_spec(v.y as int, len),
        normalize_comp_spec(v.z as int, len),
    )
}

proof fn lemma_normalize_comp_bounded(n: int, c: int, len: int)
    requires
        is_sqrt(n, len),
        c * c <= n,
    ensures
        -(FX as int) <= normalize_comp_spec(c, len) <= FX as int,
{
    if len != 0 {
        assert(-len <= c <= len) by (nonlinear_arith)
            requires c * c < (len + 1) * (len + 1), len >= 0;
        assert(len * (FX as int) / len == FX as int) by {
            lemma_fundamental_div_mod_converse(len * (FX as int), len, FX as int, 0);
        }
        assert((-len) * (FX as int) / len == -(FX as int)) by {
            assert((-len) * (FX as int) == (-(FX as int)) * len + 0) by (nonlinear_arith);
            lemma_fundamental_div_mod_converse((-len) * (FX as int), len, -(FX as int), 0);
        }
        assert((-len) * (FX as int) <= c * (FX as int) <= len * (FX as int)) by (nonlinear_arith)
            requires -len <= c <= len, 0 < len;
        lemma_div_is_ordered_both(
            (-len) * (FX as int), c * (FX as int), len * (FX as int), len);
    }
}

proof fn lemma_div_is_ordered_both(lo: int, a: int, hi: int, d: int)
    requires
        0 < d,
        lo <= a <= hi,
    ensures
        lo / d <= a / d <= hi / d,
{
    vstd::arithmetic::div_mod::lemma_div_is_ordered(lo, a, d);
    vstd::arithmetic::div_mod::lemma_div_is_ordered(a, hi, d);
}

/// Fixed-point normalization.  The zero vector stays zero; otherwise every
/// component of the result lies within `[-FX, FX]`.
pub fn normalize_fx(v: &Vec3Fx) -> (r: Vec3Fx)
    requires
        v.abs_within(NORM_MAX as int),
    ensures
        (r.x as int, r.y as int, r.z as int) == normalize_fx_spec(*v),
        r.abs_within(FX as int),
{
    proof {
        assert(0 <= (v.x as int) * (v.x as int) <= 0x1000000000000000
            && 0 <= (v.y as int) * (v.y as int) <= 0x1000000000000000
            && 0 <= (v.z as int) * (v.z as int) <= 0x1000000000000000)
            by (nonlinear_arith)
            requires
                -0x40000000 <= v.x <= 0x40000000,
                -0x40000000 <= v.y <= 0x40000000,
                -0x40000000 <= v.z <= 0x40000000;
    }
    let sq: u128 = (v.x as i128 * v.x as i128) as u128 + (v.y as i128 * v.y as i128) as u128
        + (v.z as i128 * v.z as i128) as u128;
    let len: u64 = isqrt(sq as u64);
    let ghost l = len as int;
    proof {
        assert(norm_sq_spec(*v) == sq as int);
        lemma_sqrt_unique(sq as int, l, sqrt_floor(norm_sq_spec(*v)));
    }
    if len == 0 {
        Vec3Fx { x: 0, y: 0, z: 0 }
    } else {
        proof {
            lemma_normalize_comp_bounded(sq as int, v.x as int, l);
            lemma_normalize_comp_bounded(sq as int, v.y as int, l);
            lemma_normalize_comp_bounded(sq as int, v.z as int, l);
        }
        let x = div_floor(v.x as i128 * FX as i128, len as i128);
        let y = div_floor(v.y as i128 * FX as i128, len as i128);
        let z = div_floor(v.z as i128 * FX as i128, len as i128);
        Vec3Fx { x: x as i64, y: y as i64, z: z as i64 }
    }
}

/// One row of a fixed-point matrix applied to `(v, 1)`:
/// `(a*x + b*y + c*z + d*FX) / FX`.
pub open spec fn mat_row_apply_spec(a: int, b: int, c: int, d: int, v: Vec3Fx) -> int {
    (a * v.x + b * v.y + c * v.z + d * (FX as int)) / (FX as int)
}

fn mat_row_apply(a: i64, b: i64, c: i64, d: i64, v: &Vec3Fx) -> (r: i64)
    requires
        -MAT_MAX <= a <= MAT_MAX,
        -MAT_MAX <= b <= MAT_MAX,
        -MAT_MAX <= c <= MAT_MAX,
        -MAT_MAX <= d <= MAT_MAX,
        v.abs_within(VEC_IN_MAX as int),
    ensures
        r == mat_row_apply_spec(a as int, b as int, c as int, d as int, *v),
        -0x40000000 <= r <= 0x40000000,
{
    proof {
        assert(-0x40000000000 <= (a as int) * (v.x as int) <= 0x40000000000
            && -0x40000000000 <= (b as int) * (v.y as int) <= 0x40000000000
            && -0x40000000000 <= (c as int) * (v.z as int) <= 0x40000000000
            && -0x10000000000 <= (d as int) * (FX as int) <= 0x10000000000)
            by (nonlinear_arith)
            requires
                -0x1000000 <= a <= 0x1000000, -0x40000 <= v.x <= 0x40000,
                -0x1000000 <= b <= 0x1000000, -0x40000 <= v.y <= 0x40000,
                -0x1000000 <= c <= 0x1000000, -0x40000 <= v.z <= 0x40000,
                -0x1000000 <= d <= 0x1000000;
    }
    let s: i128 = (a as i128) * (v.x as i128) + (b as i128) * (v.y as i128)
        + (c as i128) * (v.z as i128) + (d as i128) * (FX as i128);
    let q = div_floor(s, FX as i128);
    proof {
        lemma_div_range(s as int, 0xd0000000000, FX as int);
    }
    q as i64
}

/// The `x`, `y`, `z` rows of `m * (v, 1)`, as a fixed-point vector.
pub open spec fn mat4_apply_xyz_spec(m: Mat4Fx, v: Vec3Fx) -> (int, int, int) {
    (
        mat_row_apply_spec(m.m00 as int, m.m01 as int, m.m02 as int, m.m03 as int, v),
        mat_row_apply_spec(m.m10 as int, m.m11 as int, m.m12 as int, m.m13 as int, v),
        mat_row_apply_spec(m.m20 as int, m.m21 as int, m.m22 as int, m.m23 as int, v),
    )
}

/// Applies the upper three rows of a fixed-point matrix to `(v, 1)`,
/// dropping the homogeneous row.
pub fn mat4_apply_xyz(m: &Mat4Fx, v: &Vec3Fx) -> (r: Vec3Fx)
    requires
        m.abs_within(MAT_MAX as int),
        v.abs_within(VEC_IN_MAX as int),
    ensures
        (r.x as int, r.y as int, r.z as int) == mat4_apply_xyz_spec(*m, *v),
        r.abs_within(0x40000000),
{
    Vec3Fx {
        x: mat_row_apply(m.m00, m.m01, m.m02, m.m03, v),
        y: mat_row_apply(m.m10, m.m11, m.m12, m.m13, v),
        z: mat_row_apply(m.m20, m.m21, m.m22, m.m23, v),
    }
}

/// Fixed-point exponentiation of a base in `[0, FX]` (a fraction of 1.0) to
/// a natural exponent; `FX` stands for 1.0.
pub open spec fn pow_fx_spec(b: int, e: nat) -> int
    decreases e,
{
    if e == 0 {
        FX as int
    } else {
        pow_fx_spec(b, (e - 1) as nat) * b / (FX as int)
    }
}

proof fn lemma_pow_fx_bounded(b: int, e: nat)
    requires
        0 <= b <= FX as int,
    ensures
        0 <= pow_fx_spec(b, e) <= FX as int,
    decreases e,
{
    if e > 0 {
        lemma_pow_fx_bounded(b, (e - 1) as nat);
        let p = pow_fx_spec(b, (e - 1) as nat);
        assert(0 <= p * b <= (FX as int) * (FX as int)) by (nonlinear_arith)
            requires 0 <= p <= FX as int, 0 <= b <= FX as int;
        vstd::arithmetic::div_mod::lemma_div_pos_is_pos(p * b, FX as int);
        lemma_div_is_ordered_both(0, p * b, (FX as int) * (FX as int), FX as int);
        assert((65536int * 65536) / 65536 == 65536);
    }
}

/// Fixed-point exponentiation by repeated multiplication.
pub fn pow_fx(b: i64, e: u16) -> (r: i64)
    requires
        0 <= b <= FX,
    ensures
        r == pow_fx_spec(b as int, e as nat),
        0 <= r <= FX,
{
    let mut r: i64 = FX;
    let mut i: u16 = 0;
    while i < e
        invariant
            0 <= b <= FX,
            i <= e,
            r == pow_fx_spec(b as int, i as nat),
            0 <= r <= FX,
        decreases e - i,
    {
        proof {
            lemma_pow_fx_bounded(b as int, (i + 1) as nat);
        }
        let p: u128 = (r as u128) * (b as u128);
        proof {
            assert(p == (r as int) * (b as int));
            assert((r as int) * (b as int) / (FX as int)
                == pow_fx_spec(b as int, (i + 1) as nat));
        }
        r = (p / (FX as u128)) as i64;
        i = i + 1;
    }
    r
}

} // verus!
