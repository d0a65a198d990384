//! Screen-space geometry: packed colors, barycentric weights on the
//! sub-pixel grid, perspective-correct depth, and the multisample state.
//!
//! Barycentric weights are computed with the signed-area (edge-function)
//! formula on exact integers and kept as integer fractions of the triangle's
//! doubled signed area, canonicalized so the denominator is nonnegative.

use crate::transform::{
    div_floor, lemma_div_range, lemma_div_strict_bound, COORD_MAX, FX, SUB, VAL_MAX, ZW_MAX,
};
use vstd::arithmetic::div_mod::{
    lemma_div_is_ordered, lemma_div_pos_is_pos, lemma_fundamental_div_mod_converse,
};
use vstd::prelude::*;

verus! {

/// Number of subsamples per pixel in the multisampled path.
pub const MSAA_LEVEL: usize = 4;

/// The depth written for a sample on the far clamp: 255 in `FX` units.
pub const DEPTH_MAX: i64 = 16711680;

/// The depth buffer's clear value; below every clamped sample depth.
pub const DEPTH_MIN: i64 = i64::MIN;

/// Magnitude bound on barycentric weight numerators and denominators.
pub const WEIGHT_MAX: i64 = 17592186044416;

/// An 8-bit RGB color triple.
#[derive(Clone, Copy, Debug, PartialEq, Eq, Structural)]
pub struct Rgb {
    pub r: u8,
    pub g: u8,
    pub b: u8,
}

/// The packed `0x00RRGGBB` form of a color.
pub open spec fn pack_rgb(c: Rgb) -> int {
    c.r * 65536 + c.g * 256 + c.b
}

/// Packs an RGB triple into one `0x00RRGGBB` word.
pub fn from_u8_rgb(r: u8, g: u8, b: u8) -> (p: u32)
    ensures
        p == r * 65536 + g * 256 + b,
{
    let (r, g, b) = (r as u32, g as u32, b as u32);
    let p = (r << 16) | (g << 8) | b;
    proof {
        assert((r << 16) | (g << 8) | b == r * 65536 + g * 256 + b) by (bit_vector)
            requires r < 256 && g < 256 && b < 256;
    }
    p
}

/// Whether the multisampled path is active.
#[derive(Clone, Copy, Debug, PartialEq, Eq, Structural)]
pub enum MsaaOptions {
    Disable,
    X4,
}

/// Per-pixel multisample state: a coverage flag, a depth and a color for
/// each of the four subsamples.  It is scratch for one pixel of one
/// triangle; every field is rewritten before it is read back.
#[derive(Clone, Debug)]
pub struct MsaaTensor {
    mask: [bool; 4],
    dept: [i64; 4],
    colo: [Rgb; 4],
}

impl MsaaTensor {
    pub closed spec fn mask_at(self, i: int) -> bool {
        self.mask@[i]
    }

    pub closed spec fn dept_at(self, i: int) -> i64 {
        self.dept@[i]
    }

    pub closed spec fn colo_at(self, i: int) -> Rgb {
        self.colo@[i]
    }

    /// A tensor with no coverage, far depths and black colors.
    pub fn new() -> (t: MsaaTensor)
        ensures
            forall|i: int| 0 <= i < 4 ==> !t.mask_at(i),
            forall|i: int| 0 <= i < 4 ==> t.dept_at(i) == DEPTH_MIN,
            forall|i: int| 0 <= i < 4 ==> t.colo_at(i) == (Rgb { r: 0, g: 0, b: 0 }),
    {
        MsaaTensor {
            mask: [false, false, false, false],
            dept: [DEPTH_MIN, DEPTH_MIN, DEPTH_MIN, DEPTH_MIN],
            colo: [
                Rgb { r: 0, g: 0, b: 0 },
                Rgb { r: 0, g: 0, b: 0 },
                Rgb { r: 0, g: 0, b: 0 },
                Rgb { r: 0, g: 0, b: 0 },
            ],
        }
    }

    pub fn set_mask(&mut self, idx: usize, flag: bool)
        requires
            idx < 4,
        ensures
            final(self).mask_at(idx as int) == flag,
            forall|i: int| 0 <= i < 4 && i != idx ==> final(self).mask_at(i) == old(self).mask_at(i),
            forall|i: int| 0 <= i < 4 ==> final(self).dept_at(i) == old(self).dept_at(i),
            forall|i: int| 0 <= i < 4 ==> final(self).colo_at(i) == old(self).colo_at(i),
    {
        self.mask[idx] = flag;
    }

    pub fn mask(&self, idx: usize) -> (flag: bool)
        requires
            idx < 4,
        ensures
            flag == self.mask_at(idx as int),
    {
        self.mask[idx]
    }

    pub fn set_dept(&mut self, idx: usize, value: i64)
        requires
            idx < 4,
        ensures
            final(self).dept_at(idx as int) == value,
            forall|i: int| 0 <= i < 4 && i != idx ==> final(self).dept_at(i) == old(self).dept_at(i),
            forall|i: int| 0 <= i < 4 ==> final(self).mask_at(i) == old(self).mask_at(i),
            forall|i: int| 0 <= i < 4 ==> final(self).colo_at(i) == old(self).colo_at(i),
    {
        self.dept[idx] = value;
    }

    pub fn dept(&self, idx: usize) -> (value: i64)
        requires
            idx < 4,
        ensures
            value == self.dept_at(idx as int),
    {
        self.dept[idx]
    }

    pub fn set_colo(&mut self, idx: usize, color: &Rgb)
        requires
            idx < 4,
        ensures
            final(self).colo_at(idx as int) == *color,
            forall|i: int| 0 <= i < 4 && i != idx ==> final(self).colo_at(i) == old(self).colo_at(i),
            forall|i: int| 0 <= i < 4 ==> final(self).mask_at(i) == old(self).mask_at(i),
            forall|i: int| 0 <= i < 4 ==> final(self).dept_at(i) == old(self).dept_at(i),
    {
        self.colo[idx] = *color;
    }

    pub fn colo(&self, idx: usize) -> (color: Rgb)
        requires
            idx < 4,
        ensures
            color == self.colo_at(idx as int),
    {
        self.colo[idx]
    }
}

/// A screen-space triangle: for each vertex, the perspective-divided
/// position on the sub-pixel grid (`SUB` units per pixel) and the original
/// clip-space `z` and `w` in `FX` units, kept separate so depth can be
/// interpolated perspective-correctly.
#[derive(Clone, Copy, Debug, PartialEq, Eq, Structural)]
pub struct ScreenTriangle {
    pub ax: i64, pub ay: i64, pub az: i64, pub aw: i64,
    pub bx: i64, pub by: i64, pub bz: i64, pub bw: i64,
    pub cx: i64, pub cy: i64, pub cz: i64, pub cw: i64,
}

impl ScreenTriangle {
    /// Machine bounds under which all rasterization arithmetic is exact.
    pub open spec fn wf(self) -> bool {
        &&& -COORD_MAX <= self.ax <= COORD_MAX && -COORD_MAX <= self.ay <= COORD_MAX
        &&& -COORD_MAX <= self.bx <= COORD_MAX && -COORD_MAX <= self.by <= COORD_MAX
        &&& -COORD_MAX <= self.cx <= COORD_MAX && -COORD_MAX <= self.cy <= COORD_MAX
        &&& -ZW_MAX <= self.az <= ZW_MAX && -ZW_MAX <= self.aw <= ZW_MAX
        &&& -ZW_MAX <= self.bz <= ZW_MAX && -ZW_MAX <= self.bw <= ZW_MAX
        &&& -ZW_MAX <= self.cz <= ZW_MAX && -ZW_MAX <= self.cw <= ZW_MAX
    }

    /// Builds a screen triangle, rejecting values outside the machine
    /// bounds that the rasterizer's arithmetic needs.
    pub fn new(
        ax: i64, ay: i64, az: i64, aw: i64,
        bx: i64, by: i64, bz: i64, bw: i64,
        cx: i64, cy: i64, cz: i64, cw: i64,
    ) -> (t: Option<ScreenTriangle>)
        ensures
            match t {
                Some(t) => {
                    &&& t.wf()
                    &&& t == (ScreenTriangle { ax, ay, az, aw, bx, by, bz, bw, cx, cy, cz, cw })
                },
                None => !(ScreenTriangle { ax, ay, az, aw, bx, by, bz, bw, cx, cy, cz, cw }).wf(),
            },
    {
        let t = ScreenTriangle { ax, ay, az, aw, bx, by, bz, bw, cx, cy, cz, cw };
        if -COORD_MAX <= ax && ax <= COORD_MAX && -COORD_MAX <= ay && ay <= COORD_MAX
            && -COORD_MAX <= bx && bx <= COORD_MAX && -COORD_MAX <= by && by <= COORD_MAX
            && -COORD_MAX <= cx && cx <= COORD_MAX && -COORD_MAX <= cy && cy <= COORD_MAX
            && -ZW_MAX <= az && az <= ZW_MAX && -ZW_MAX <= aw && aw <= ZW_MAX
            && -ZW_MAX <= bz && bz <= ZW_MAX && -ZW_MAX <= bw && bw <= ZW_MAX
            && -ZW_MAX <= cz && cz <= ZW_MAX && -ZW_MAX <= cw && cw <= ZW_MAX
        {
            Some(t)
        } else {
            None
        }
    }
}

/// The edge function: twice the signed area of the triangle `(a, b, p)`.
pub open spec fn edge_fn(ax: int, ay: int, bx: int, by: int, px: int, py: int) -> int {
    (bx - ax) * (py - ay) - (px - ax) * (by - ay)
}

/// Twice the signed area of the whole triangle.
pub open spec fn den_raw(t: ScreenTriangle) -> int {
    edge_fn(t.ax as int, t.ay as int, t.bx as int, t.by as int, t.cx as int, t.cy as int)
}

pub open spec fn wa_raw(t: ScreenTriangle, px: int, py: int) -> int {
    edge_fn(t.bx as int, t.by as int, t.cx as int, t.cy as int, px, py)
}

pub open spec fn wb_raw(t: ScreenTriangle, px: int, py: int) -> int {
    edge_fn(t.cx as int, t.cy as int, t.ax as int, t.ay as int, px, py)
}

pub open spec fn wc_raw(t: ScreenTriangle, px: int, py: int) -> int {
    edge_fn(t.ax as int, t.ay as int, t.bx as int, t.by as int, px, py)
}

/// The sub-areas at any sample point sum to the whole area, so the three
/// barycentric weights, as fractions of the signed area, sum to one.
#[verifier::rlimit(100)]
pub proof fn lemma_weights_sum_to_area(t: ScreenTriangle, px: int, py: int)
    ensures
        wa_raw(t, px, py) + wb_raw(t, px, py) + wc_raw(t, px, py) == den_raw(t),
{
    let (ax, ay) = (t.ax as int, t.ay as int);
    let (bx, by) = (t.bx as int, t.by as int);
    let (cx, cy) = (t.cx as int, t.cy as int);
    assert(((cx - bx) * (py - by) - (px - bx) * (cy - by))
        + ((ax - cx) * (py - cy) - (px - cx) * (ay - cy))
        + ((bx - ax) * (py - ay) - (px - ax) * (by - ay))
        == (bx - ax) * (cy - ay) - (cx - ax) * (by - ay)) by (nonlinear_arith);
}

/// The three canonical barycentric weight numerators of any sample point
/// sum to their shared denominator: as exact fractions, the three
/// weights of every sample (interior ones included) sum to one.
pub proof fn lemma_weights_sum_to_one(t: ScreenTriangle, px: int, py: int)
    ensures
        canon_wa(t, px, py) + canon_wb(t, px, py) + canon_wc(t, px, py) == canon_den(t),
{
    lemma_weights_sum_to_area(t, px, py);
    let s = canon_sign(t);
    assert(s * wa_raw(t, px, py) + s * wb_raw(t, px, py) + s * wc_raw(t, px, py) == s * (wa_raw(
        t,
        px,
        py,
    ) + wb_raw(t, px, py) + wc_raw(t, px, py))) by (nonlinear_arith);
}

/// `1` when the triangle's signed area is nonnegative, else `-1`: weights
/// are canonicalized by this sign so their denominator is nonnegative.
pub open spec fn canon_sign(t: ScreenTriangle) -> int {
    if den_raw(t) < 0 { -1 } else { 1 }
}

pub open spec fn canon_den(t: ScreenTriangle) -> int {
    canon_sign(t) * den_raw(t)
}

pub open spec fn canon_wa(t: ScreenTriangle, px: int, py: int) -> int {
    canon_sign(t) * wa_raw(t, px, py)
}

pub open spec fn canon_wb(t: ScreenTriangle, px: int, py: int) -> int {
    canon_sign(t) * wb_raw(t, px, py)
}

pub open spec fn canon_wc(t: ScreenTriangle, px: int, py: int) -> int {
    canon_sign(t) * wc_raw(t, px, py)
}

/// Barycentric weights of one sample point, as an exact integer fraction:
/// the weights are `wa/den`, `wb/den`, `wc/den` with `den >= 0`.
#[derive(Clone, Copy, Debug, PartialEq, Eq, Structural)]
pub struct Weights {
    pub wa: i64,
    pub wb: i64,
    pub wc: i64,
    pub den: i64,
}

impl Weights {
    /// Weights of an interior sample of a nondegenerate triangle: all
    /// three are nonnegative fractions that sum to one.
    pub open spec fn valid(self) -> bool {
        &&& 0 < self.den <= WEIGHT_MAX
        &&& 0 <= self.wa
        &&& 0 <= self.wb
        &&& 0 <= self.wc
        &&& self.wa + self.wb + self.wc == self.den
    }
}

/// Whether a sample point is valid to feed to `barycentric`: the pixel
/// grid extended by one pixel of sample-offset slack.
pub open spec fn sample_in_range(px: int, py: int) -> bool {
    &&& -(COORD_MAX + SUB) <= px <= COORD_MAX + SUB
    &&& -(COORD_MAX + SUB) <= py <= COORD_MAX + SUB
}

proof fn lemma_edge_bound(ax: int, ay: int, bx: int, by: int, px: int, py: int)
    requires
        -COORD_MAX <= ax <= COORD_MAX,
        -COORD_MAX <= ay <= COORD_MAX,
        -COORD_MAX <= bx <= COORD_MAX,
        -COORD_MAX <= by <= COORD_MAX,
        -(COORD_MAX + SUB) <= px <= COORD_MAX + SUB,
        -(COORD_MAX + SUB) <= py <= COORD_MAX + SUB,
    ensures
        -WEIGHT_MAX <= edge_fn(ax, ay, bx, by, px, py) <= WEIGHT_MAX,
{
    assert(-WEIGHT_MAX <= (bx - ax) * (py - ay) - (px - ax) * (by - ay) <= WEIGHT_MAX)
        by (nonlinear_arith)
        requires
            -2097152 <= bx - ax <= 2097152,
            -2097408 <= py - ay <= 2097408,
            -2097408 <= px - ax <= 2097408,
            -2097152 <= by - ay <= 2097152,
            WEIGHT_MAX == 17592186044416int;
}

/// Computes the barycentric weights of a sample point by the signed-area
/// formula, canonicalized so the denominator is nonnegative.  The result
/// is exact: `w.wa / w.den` is the first barycentric coordinate, and the
/// three numerators sum to the denominator.
pub fn barycentric(t: &ScreenTriangle, px: i64, py: i64) -> (w: Weights)
    requires
        t.wf(),
        sample_in_range(px as int, py as int),
    ensures
        w.wa == canon_wa(*t, px as int, py as int),
        w.wb == canon_wb(*t, px as int, py as int),
        w.wc == canon_wc(*t, px as int, py as int),
        w.den == canon_den(*t),
        w == weights_at(*t, px as int, py as int),
        0 <= w.den <= WEIGHT_MAX,
        -WEIGHT_MAX <= w.wa <= WEIGHT_MAX,
        -WEIGHT_MAX <= w.wb <= WEIGHT_MAX,
        -WEIGHT_MAX <= w.wc <= WEIGHT_MAX,
        w.wa + w.wb + w.wc == w.den,
{
    proof {
        lemma_edge_bound(t.bx as int, t.by as int, t.cx as int, t.cy as int, px as int, py as int);
        lemma_edge_bound(t.cx as int, t.cy as int, t.ax as int, t.ay as int, px as int, py as int);
        lemma_edge_bound(t.ax as int, t.ay as int, t.bx as int, t.by as int, px as int, py as int);
        lemma_edge_bound(
            t.ax as int, t.ay as int, t.bx as int, t.by as int, t.cx as int, t.cy as int);
        lemma_weights_sum_to_area(*t, px as int, py as int);
        assert(-0x100000000000 <= (t.cx as int - t.bx as int) * (py as int - t.by as int) <= 0x100000000000
            && -0x100000000000 <= (px as int - t.bx as int) * (t.cy as int - t.by as int) <= 0x100000000000
            && -0x100000000000 <= (t.ax as int - t.cx as int) * (py as int - t.cy as int) <= 0x100000000000
            && -0x100000000000 <= (px as int - t.cx as int) * (t.ay as int - t.cy as int) <= 0x100000000000
            && -0x100000000000 <= (t.bx as int - t.ax as int) * (py as int - t.ay as int) <= 0x100000000000
            && -0x100000000000 <= (px as int - t.ax as int) * (t.by as int - t.ay as int) <= 0x100000000000
            && -0x100000000000 <= (t.bx as int - t.ax as int) * (t.cy as int - t.ay as int) <= 0x100000000000
            && -0x100000000000 <= (t.cx as int - t.ax as int) * (t.by as int - t.ay as int) <= 0x100000000000)
            by (nonlinear_arith)
            requires
                -2097408 <= t.cx as int - t.bx as int <= 2097408,
                -2097408 <= py as int - t.by as int <= 2097408,
                -2097408 <= px as int - t.bx as int <= 2097408,
                -2097408 <= t.cy as int - t.by as int <= 2097408,
                -2097408 <= t.ax as int - t.cx as int <= 2097408,
                -2097408 <= py as int - t.cy as int <= 2097408,
                -2097408 <= px as int - t.cx as int <= 2097408,
                -2097408 <= t.ay as int - t.cy as int <= 2097408,
                -2097408 <= t.bx as int - t.ax as int <= 2097408,
                -2097408 <= py as int - t.ay as int <= 2097408,
                -2097408 <= px as int - t.ax as int <= 2097408,
                -2097408 <= t.by as int - t.ay as int <= 2097408,
                -2097408 <= t.cx as int - t.ax as int <= 2097408,
                -2097408 <= t.cy as int - t.ay as int <= 2097408;
    }
    let wa0: i128 = (t.cx as i128 - t.bx as i128) * (py as i128 - t.by as i128)
        - (px as i128 - t.bx as i128) * (t.cy as i128 - t.by as i128);
    let wb0: i128 = (t.ax as i128 - t.cx as i128) * (py as i128 - t.cy as i128)
        - (px as i128 - t.cx as i128) * (t.ay as i128 - t.cy as i128);
    let wc0: i128 = (t.bx as i128 - t.ax as i128) * (py as i128 - t.ay as i128)
        - (px as i128 - t.ax as i128) * (t.by as i128 - t.ay as i128);
    let den0: i128 = (t.bx as i128 - t.ax as i128) * (t.cy as i128 - t.ay as i128)
        - (t.cx as i128 - t.ax as i128) * (t.by as i128 - t.ay as i128);
    if den0 < 0 {
        Weights {
            wa: (-wa0) as i64,
            wb: (-wb0) as i64,
            wc: (-wc0) as i64,
            den: (-den0) as i64,
        }
    } else {
        Weights { wa: wa0 as i64, wb: wb0 as i64, wc: wc0 as i64, den: den0 as i64 }
    }
}

/// The canonical weights of a sample point, as one record.
pub open spec fn weights_at(t: ScreenTriangle, px: int, py: int) -> Weights {
    Weights {
        wa: canon_wa(t, px, py) as i64,
        wb: canon_wb(t, px, py) as i64,
        wc: canon_wc(t, px, py) as i64,
        den: canon_den(t) as i64,
    }
}

/// Whether a sample point lies in the triangle: the triangle is not
/// degenerate and no barycentric weight is negative.
pub open spec fn interior_at(t: ScreenTriangle, px: int, py: int) -> bool {
    &&& canon_den(t) > 0
    &&& canon_wa(t, px, py) >= 0
    &&& canon_wb(t, px, py) >= 0
    &&& canon_wc(t, px, py) >= 0
}

/// The interior test: rejects any sample with a negative barycentric
/// weight, and every sample of a degenerate (zero-area) triangle.
pub fn interior(weights: &Weights) -> (inside: bool)
    ensures
        inside == (weights.den > 0 && weights.wa >= 0 && weights.wb >= 0 && weights.wc >= 0),
        inside ==> weights.den > 0,
{
    weights.den > 0 && weights.wa >= 0 && weights.wb >= 0 && weights.wc >= 0
}

/// Interpolates one attribute held per-vertex across the triangle:
/// the exact floor of `(v0*wa + v1*wb + v2*wc) / den`.
pub open spec fn interp3_spec(v0: int, v1: int, v2: int, w: Weights) -> int {
    (v0 * w.wa + v1 * w.wb + v2 * w.wc) / (w.den as int)
}

proof fn lemma_interp3_num_bound(v0: int, v1: int, v2: int, w: Weights, m: int)
    requires
        w.valid(),
        0 <= m,
        -m <= v0 <= m,
        -m <= v1 <= m,
        -m <= v2 <= m,
    ensures
        -(m * w.den) <= v0 * w.wa + v1 * w.wb + v2 * w.wc <= m * w.den,
{
    assert(-(m * (w.wa + w.wb + w.wc)) <= v0 * w.wa + v1 * w.wb + v2 * w.wc
        <= m * (w.wa + w.wb + w.wc)) by (nonlinear_arith)
        requires
            0 <= m,
            0 <= w.wa, 0 <= w.wb, 0 <= w.wc,
            -m <= v0 <= m, -m <= v1 <= m, -m <= v2 <= m;
}

/// Bounds the interpolated value by any common bound on the vertex values.
pub proof fn lemma_interp3_bound(v0: int, v1: int, v2: int, w: Weights, m: int)
    requires
        w.valid(),
        0 <= m,
        -m <= v0 <= m,
        -m <= v1 <= m,
        -m <= v2 <= m,
    ensures
        -m - 1 <= interp3_spec(v0, v1, v2, w) <= m,
{
    lemma_interp3_num_bound(v0, v1, v2, w, m);
    let num = v0 * w.wa + v1 * w.wb + v2 * w.wc;
    lemma_fundamental_div_mod_converse(m * w.den, w.den as int, m, 0);
    assert((-m) * w.den == -(m * w.den)) by (nonlinear_arith);
    lemma_fundamental_div_mod_converse(-(m * w.den), w.den as int, -m, 0);
    lemma_div_is_ordered(num, m * w.den, w.den as int);
    lemma_div_is_ordered(-(m * w.den), num, w.den as int);
}

/// Interpolates a fixed-point attribute with exact floor semantics; the
/// result of nonnegative inputs is nonnegative, and any common magnitude
/// bound on the inputs bounds the output (one below on the left).
pub fn interp3(v0: i64, v1: i64, v2: i64, w: &Weights) -> (r: i64)
    requires
        w.valid(),
        -VAL_MAX <= v0 <= VAL_MAX,
        -VAL_MAX <= v1 <= VAL_MAX,
        -VAL_MAX <= v2 <= VAL_MAX,
    ensures
        r == interp3_spec(v0 as int, v1 as int, v2 as int, *w),
        -VAL_MAX - 1 <= r <= VAL_MAX,
        v0 >= 0 && v1 >= 0 && v2 >= 0 ==> r >= 0,
{
    proof {
        assert(-0x100000000000000000000 <= (v0 as int) * (w.wa as int) <= 0x100000000000000000000
            && -0x100000000000000000000 <= (v1 as int) * (w.wb as int) <= 0x100000000000000000000
            && -0x100000000000000000000 <= (v2 as int) * (w.wc as int) <= 0x100000000000000000000)
            by (nonlinear_arith)
            requires
                -0x100000000 <= v0 <= 0x100000000,
                -0x100000000 <= v1 <= 0x100000000,
                -0x100000000 <= v2 <= 0x100000000,
                0 <= w.wa <= 0x100000000000,
                0 <= w.wb <= 0x100000000000,
                0 <= w.wc <= 0x100000000000,
        ;
        assert(w.wa <= 0x100000000000 && w.wb <= 0x100000000000 && w.wc <= 0x100000000000);
        lemma_interp3_bound(v0 as int, v1 as int, v2 as int, *w, VAL_MAX as int);
        lemma_interp3_num_bound(v0 as int, v1 as int, v2 as int, *w, VAL_MAX as int);
        if v0 >= 0 && v1 >= 0 && v2 >= 0 {
            assert(0 <= (v0 as int) * (w.wa as int) + (v1 as int) * (w.wb as int)
                + (v2 as int) * (w.wc as int)) by (nonlinear_arith)
                requires
                    0 <= v0, 0 <= v1, 0 <= v2, 0 <= w.wa, 0 <= w.wb, 0 <= w.wc;
            lemma_div_pos_is_pos(
                (v0 as int) * (w.wa as int) + (v1 as int) * (w.wb as int)
                    + (v2 as int) * (w.wc as int),
                w.den as int,
            );
        }
    }
    let num: i128 = (v0 as i128) * (w.wa as i128) + (v1 as i128) * (w.wb as i128)
        + (v2 as i128) * (w.wc as i128);
    let q = div_floor(num, w.den as i128);
    q as i64
}

/// Numerator of the interpolated clip-space `z` under weights `wa/wb/wc`.
pub open spec fn znum_from(t: ScreenTriangle, wa: int, wb: int, wc: int) -> int {
    t.az * wa + t.bz * wb + t.cz * wc
}

/// Numerator of the interpolated clip-space `w` under weights `wa/wb/wc`.
pub open spec fn wnum_from(t: ScreenTriangle, wa: int, wb: int, wc: int) -> int {
    t.aw * wa + t.bw * wb + t.cw * wc
}

/// The quantized depth of a sample with barycentric weight numerators
/// `wa/wb/wc`: the floor of `clamp(z/w + 1/2, 0, 255)` in `FX` units,
/// where `z` and `w` are interpolated separately (their shared weight
/// denominator cancels in the quotient).  A sample whose interpolated `w`
/// is zero takes the clamp that the sign of its `z` selects (the far
/// clamp when `z` is zero too); such samples come only from degenerate
/// input, for which the output is not specified upstream.
pub open spec fn depth_from(t: ScreenTriangle, wa: int, wb: int, wc: int) -> int {
    let nz0 = znum_from(t, wa, wb, wc);
    let nw0 = wnum_from(t, wa, wb, wc);
    let nz = if nw0 < 0 { -nz0 } else { nz0 };
    let nw = if nw0 < 0 { -nw0 } else { nw0 };
    if nw == 0 {
        if nz < 0 { 0 } else { DEPTH_MAX as int }
    } else {
        let nn = 2 * nz + nw;
        if nn <= 0 {
            0
        } else if nn >= 255 * (2 * nw) {
            DEPTH_MAX as int
        } else {
            nn * (FX as int) / (2 * nw)
        }
    }
}

/// The quantized depth of the sample point `(px, py)`.
pub open spec fn depth_at(t: ScreenTriangle, px: int, py: int) -> int {
    depth_from(t, canon_wa(t, px, py), canon_wb(t, px, py), canon_wc(t, px, py))
}

/// Every quantized sample depth lies on the clamp range `[0, DEPTH_MAX]`.
pub proof fn lemma_depth_from_bounds(t: ScreenTriangle, wa: int, wb: int, wc: int)
    ensures
        0 <= depth_from(t, wa, wb, wc) <= DEPTH_MAX,
{
    let nz0 = znum_from(t, wa, wb, wc);
    let nw0 = wnum_from(t, wa, wb, wc);
    let nz: int = if nw0 < 0 { -nz0 } else { nz0 };
    let nw: int = if nw0 < 0 { -nw0 } else { nw0 };
    if nw != 0 {
        let nn = 2 * nz + nw;
        if 0 < nn && nn < 255 * (2 * nw) {
            lemma_div_pos_is_pos(nn * (FX as int), 2 * nw);
            assert(nn * (FX as int) < (DEPTH_MAX as int) * (2 * nw)) by (nonlinear_arith)
                requires
                    0 < nn < 255 * (2 * nw),
                    0 < nw,
                    FX == 65536i64,
                    DEPTH_MAX == 16711680i64;
            lemma_div_strict_bound(nn * (FX as int), DEPTH_MAX as int, 2 * nw);
        }
    }
}

/// The bound at every sample point.
pub proof fn lemma_depth_at_bounds(t: ScreenTriangle, px: int, py: int)
    ensures
        0 <= depth_at(t, px, py) <= DEPTH_MAX,
{
    lemma_depth_from_bounds(t, canon_wa(t, px, py), canon_wb(t, px, py), canon_wc(t, px, py));
}

/// Computes the quantized sample depth from the sample's barycentric
/// weights, exactly as `depth_from` states it.
pub fn depth_from_weights(t: &ScreenTriangle, w: &Weights) -> (d: i64)
    requires
        t.wf(),
        -WEIGHT_MAX <= w.wa <= WEIGHT_MAX,
        -WEIGHT_MAX <= w.wb <= WEIGHT_MAX,
        -WEIGHT_MAX <= w.wc <= WEIGHT_MAX,
    ensures
        d == depth_from(*t, w.wa as int, w.wb as int, w.wc as int),
        0 <= d <= DEPTH_MAX,
{
    proof {
        assert(-0x100000000000000000000 <= (t.az as int) * (w.wa as int) <= 0x100000000000000000000
            && -0x100000000000000000000 <= (t.bz as int) * (w.wb as int) <= 0x100000000000000000000
            && -0x100000000000000000000 <= (t.cz as int) * (w.wc as int) <= 0x100000000000000000000
            && -0x100000000000000000000 <= (t.aw as int) * (w.wa as int) <= 0x100000000000000000000
            && -0x100000000000000000000 <= (t.bw as int) * (w.wb as int) <= 0x100000000000000000000
            && -0x100000000000000000000 <= (t.cw as int) * (w.wc as int) <= 0x100000000000000000000)
            by (nonlinear_arith)
            requires
                -0x400000000 <= t.az <= 0x400000000, -0x400000000 <= t.aw <= 0x400000000,
                -0x400000000 <= t.bz <= 0x400000000, -0x400000000 <= t.bw <= 0x400000000,
                -0x400000000 <= t.cz <= 0x400000000, -0x400000000 <= t.cw <= 0x400000000,
                -0x100000000000 <= w.wa <= 0x100000000000,
                -0x100000000000 <= w.wb <= 0x100000000000,
                -0x100000000000 <= w.wc <= 0x100000000000;
    }
    let nz0: i128 = (t.az as i128) * (w.wa as i128) + (t.bz as i128) * (w.wb as i128)
        + (t.cz as i128) * (w.wc as i128);
    let nw0: i128 = (t.aw as i128) * (w.wa as i128) + (t.bw as i128) * (w.wb as i128)
        + (t.cw as i128) * (w.wc as i128);
    let nz: i128 = if nw0 < 0 { -nz0 } else { nz0 };
    let nw: i128 = if nw0 < 0 { -nw0 } else { nw0 };
    if nw == 0 {
        if nz < 0 { 0 } else { DEPTH_MAX }
    } else {
        let nn: i128 = 2 * nz + nw;
        let dd: i128 = 2 * nw;
        if nn <= 0 {
            0
        } else if nn >= 255 * dd {
            DEPTH_MAX
        } else {
            let q: u128 = ((nn as u128) * (FX as u128)) / (dd as u128);
            proof {
                assert((nn as int) * (FX as int) < (DEPTH_MAX as int) * (dd as int))
                    by (nonlinear_arith)
                    requires
                        0 < nn < 255 * dd,
                        0 < dd,
                        FX == 65536int,
                        DEPTH_MAX == 16711680int;
                lemma_div_strict_bound((nn as int) * (FX as int), DEPTH_MAX as int, dd as int);
                lemma_div_pos_is_pos((nn as int) * (FX as int), dd as int);
            }
            q as i64
        }
    }
}

/// The horizontal and vertical sub-pixel offsets of the four rotated-grid
/// subsamples: the corner offsets of magnitude 0.25 rotated by about
/// -26.6 degrees, rounded to the sub-pixel grid.
pub open spec fn conv_off_x(j: int) -> int {
    if j == 0 { -86 } else if j == 1 { 86 } else if j == 2 { -29 } else { 29 }
}

pub open spec fn conv_off_y(j: int) -> int {
    if j == 0 { -29 } else if j == 1 { 29 } else if j == 2 { 86 } else { -86 }
}

/// One entry of the rotated sample-offset table, in sub-pixel units.
pub fn calc_conv(idx: usize) -> (off: (i64, i64))
    requires
        idx < MSAA_LEVEL,
    ensures
        off.0 == conv_off_x(idx as int),
        off.1 == conv_off_y(idx as int),
        -SUB < off.0 < SUB,
        -SUB < off.1 < SUB,
{
    if idx == 0 {
        (-86, -29)
    } else if idx == 1 {
        (86, 29)
    } else if idx == 2 {
        (-29, 86)
    } else {
        (29, -86)
    }
}

/// The smaller of two sub-pixel coordinates.
pub open spec fn min2(a: int, b: int) -> int {
    if a <= b { a } else { b }
}

pub open spec fn max2(a: int, b: int) -> int {
    if a >= b { a } else { b }
}

/// The sub-pixel bounding box of a screen triangle's three positions.
pub open spec fn bbox_min_x(t: ScreenTriangle) -> int {
    min2(min2(t.ax as int, t.bx as int), t.cx as int)
}

pub open spec fn bbox_min_y(t: ScreenTriangle) -> int {
    min2(min2(t.ay as int, t.by as int), t.cy as int)
}

pub open spec fn bbox_max_x(t: ScreenTriangle) -> int {
    max2(max2(t.ax as int, t.bx as int), t.cx as int)
}

pub open spec fn bbox_max_y(t: ScreenTriangle) -> int {
    max2(max2(t.ay as int, t.by as int), t.cy as int)
}

/// The sub-pixel bounding box of the triangle, as
/// `(min x, min y, max x, max y)`.
pub fn bounding_box(t: &ScreenTriangle) -> (bb: (i64, i64, i64, i64))
    requires
        t.wf(),
    ensures
        bb.0 == bbox_min_x(*t),
        bb.1 == bbox_min_y(*t),
        bb.2 == bbox_max_x(*t),
        bb.3 == bbox_max_y(*t),
{
    let minx = if t.ax <= t.bx { t.ax } else { t.bx };
    let minx = if minx <= t.cx { minx } else { t.cx };
    let miny = if t.ay <= t.by { t.ay } else { t.by };
    let miny = if miny <= t.cy { miny } else { t.cy };
    let maxx = if t.ax >= t.bx { t.ax } else { t.bx };
    let maxx = if maxx >= t.cx { maxx } else { t.cx };
    let maxy = if t.ay >= t.by { t.ay } else { t.by };
    let maxy = if maxy >= t.cy { maxy } else { t.cy };
    (minx, miny, maxx, maxy)
}

/// The first pixel column at or right of a sub-pixel coordinate:
/// the ceiling of `s / SUB`.
pub open spec fn pixel_ceil(s: int) -> int {
    (s + SUB - 1) / (SUB as int)
}

/// Computes `pixel_ceil` exactly.
pub fn pixel_ceil_of(s: i64) -> (p: i64)
    requires
        -2 * COORD_MAX <= s <= 2 * COORD_MAX,
    ensures
        p == pixel_ceil(s as int),
        -COORD_MAX <= p <= COORD_MAX,
{
    let q = div_floor(s as i128 + (SUB - 1) as i128, SUB as i128);
    proof {
        lemma_div_range(s as int + SUB - 1, 2 * COORD_MAX as int + SUB, SUB as int);
    }
    q as i64
}

} // verus!
