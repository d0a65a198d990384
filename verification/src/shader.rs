//! The shader pipeline: the two-stage per-triangle contract and the
//! concrete shading algorithms.
//!
//! Every shader follows the same protocol: its vertex stage is called once
//! per vertex slot to (over)write the per-triangle varying state, and only
//! once all three slots are staged may the fragment stage run.  The
//! protocol is part of the interface contract: `fragment` demands
//! `ready()`, which only three `vertex` calls establish.

use crate::graphics::{interp3, interp3_spec, lemma_interp3_bound, Rgb, Weights};
use crate::model::{
    calc_normal_spec, calc_uv_spec, diffuse_spec, normal_spec, normal_to_fx, specular_spec, Model,
};
use crate::transform::{
    div_floor, dot_fx, dot_fx_spec, lemma_div_range, lemma_dot_fx_bound, mat4_apply_xyz,
    mat4_apply_xyz_spec, max0, normalize_fx, normalize_fx_spec, pow_fx, pow_fx_spec, vec3fx_of,
    Mat4Fx, Vec2Fx, Vec3Fx, FX, MAT_MAX, VAL_MAX, VEC_IN_MAX,
};
use vstd::prelude::*;

verus! {

/// Upper bound on a diffuse lighting intensity in `FX` units.
pub const INTEN_MAX: i64 = 196608;

/// Per-triangle varying state: one value for each of the three vertex
/// slots.
#[derive(Clone, Copy, Debug)]
pub struct Slot3<T> {
    pub s0: T,
    pub s1: T,
    pub s2: T,
}

impl<T: Copy> Slot3<T> {
    /// The value of slot `i`.
    pub open spec fn get(self, i: int) -> T {
        if i == 0 {
            self.s0
        } else if i == 1 {
            self.s1
        } else {
            self.s2
        }
    }

    /// This state with slot `i` overwritten.
    pub open spec fn with(self, i: int, v: T) -> Self {
        if i == 0 {
            Slot3 { s0: v, s1: self.s1, s2: self.s2 }
        } else if i == 1 {
            Slot3 { s0: self.s0, s1: v, s2: self.s2 }
        } else {
            Slot3 { s0: self.s0, s1: self.s1, s2: v }
        }
    }

    /// All three slots set to one value.
    pub fn of(v: T) -> (s: Slot3<T>)
        ensures
            s == (Slot3 { s0: v, s1: v, s2: v }),
    {
        Slot3 { s0: v, s1: v, s2: v }
    }

    /// Overwrites slot `i`.
    pub fn set(&mut self, i: usize, v: T)
        requires
            i < 3,
        ensures
            *final(self) == old(self).with(i as int, v),
    {
        if i == 0 {
            self.s0 = v;
        } else if i == 1 {
            self.s1 = v;
        } else {
            self.s2 = v;
        }
    }

    /// Reads slot `i`.
    pub fn at(&self, i: usize) -> (v: T)
        requires
            i < 3,
        ensures
            v == self.get(i as int),
    {
        if i == 0 {
            self.s0
        } else if i == 1 {
            self.s1
        } else {
            self.s2
        }
    }
}

/// One color channel scaled by a fixed-point intensity and saturated to a
/// byte: `clamp(c * i / FX, 0, 255)`.
pub open spec fn scale_channel_spec(c: u8, i: int) -> u8 {
    if i < 0 {
        0u8
    } else if c * i / (FX as int) > 255 {
        255u8
    } else {
        (c * i / (FX as int)) as u8
    }
}

/// Scales one channel by a fixed-point intensity, saturating to a byte.
pub fn scale_channel(c: u8, i: i64) -> (r: u8)
    requires
        i <= 0x400000000000,
    ensures
        r == scale_channel_spec(c, i as int),
{
    if i < 0 {
        0
    } else {
        proof {
            assert((c as int) * (i as int) <= 0x100000000000000) by (nonlinear_arith)
                requires
                    0 <= c <= 255,
                    0 <= i <= 0x400000000000;
        }
        let v = ((c as u128) * (i as u128)) / (FX as u128);
        if v > 255 {
            255
        } else {
            v as u8
        }
    }
}

/// A color scaled per channel by a fixed-point intensity.
pub open spec fn scale_rgb_spec(c: Rgb, i: int) -> Rgb {
    Rgb {
        r: scale_channel_spec(c.r, i),
        g: scale_channel_spec(c.g, i),
        b: scale_channel_spec(c.b, i),
    }
}

/// Scales a color by a fixed-point intensity, channel by channel.
pub fn scale_rgb(c: &Rgb, i: i64) -> (r: Rgb)
    requires
        i <= 0x400000000000,
    ensures
        r == scale_rgb_spec(*c, i as int),
{
    Rgb { r: scale_channel(c.r, i), g: scale_channel(c.g, i), b: scale_channel(c.b, i) }
}

/// The shader interface: a vertex stage called exactly once per vertex
/// slot, then a fragment stage called for every accepted sample of that
/// same triangle.  `inv` is the shader's own data invariant, `staged`
/// tracks which slots the vertex stage has written, and the two spec
/// functions `vertex_spec` / `frag_spec` pin both stages down exactly.
pub trait ShaderPayload: Sized {
    /// The shader's internal data invariant.
    spec fn inv(&self) -> bool;

    /// Whether vertex slot `slot` has been staged for the current triangle.
    spec fn staged(&self, slot: int) -> bool;

    /// Whether all three vertex slots are staged, so fragments may run.
    spec fn ready(&self) -> bool;

    /// The exact result of one vertex-stage call.
    spec fn vertex_spec(&self, iface: int, ivert: int, light: Vec3Fx, model: Model) -> Self;

    /// The exact color of one fragment under interior weights.
    spec fn frag_spec(&self, w: Weights, model: Model) -> Rgb;

    /// Readiness is exactly: all three slots staged.
    proof fn ready_iff_staged(&self)
        ensures
            self.ready() <==> (self.staged(0) && self.staged(1) && self.staged(2)),
    ;

    /// The vertex stage: overwrites the varying state of slot `ivert`
    /// from face `iface` of the model, and marks the slot staged.
    fn vertex(&mut self, iface: usize, ivert: usize, light: &Vec3Fx, model: &Model)
        requires
            old(self).inv(),
            model.wf(),
            iface < model.faces.len(),
            ivert < 3,
            light.abs_within(FX as int),
        ensures
            *final(self) == old(self).vertex_spec(iface as int, ivert as int, *light, *model),
            final(self).inv(),
            final(self).staged(ivert as int),
            forall|s: int|
                0 <= s < 3 && s != ivert ==> final(self).staged(s) == old(self).staged(s),
    ;

    /// The fragment stage: a pure function of the varying state and the
    /// sample's barycentric weights.
    fn fragment(&self, weights: &Weights, model: &Model) -> (color: Rgb)
        requires
            self.inv(),
            self.ready(),
            weights.valid(),
            model.wf(),
        ensures
            color == self.frag_spec(*weights, *model),
    ;
}

/// The diffuse light intensity at one vertex: the vertex normal dotted
/// with the light direction, clamped at zero.
pub open spec fn vertex_intensity_spec(m: Model, iface: int, ivert: int, light: Vec3Fx) -> int {
    max0(dot_fx_spec(calc_normal_spec(m, iface, ivert), light))
}

/// Per-vertex-lit Gouraud shading with a diffuse texture: the vertex
/// stage computes one intensity per vertex, the fragment stage
/// interpolates intensity and texture coordinates and scales the sampled
/// texel.
pub struct GouraudShader {
    pub varying_intensity: Slot3<i64>,
    pub varying_uv: Slot3<Vec2Fx>,
    pub staged: Slot3<bool>,
}

impl GouraudShader {
    /// A fresh shader with empty varying state and no slot staged.
    pub fn new() -> (s: GouraudShader)
        ensures
            s.inv(),
            forall|i: int| 0 <= i < 3 ==> !s.staged(i),
    {
        GouraudShader {
            varying_intensity: Slot3::of(0),
            varying_uv: Slot3::of(Vec2Fx { x: 0, y: 0 }),
            staged: Slot3::of(false),
        }
    }
}

/// Bounds on one varying texture coordinate.
pub open spec fn uv_ok(u: Vec2Fx) -> bool {
    -VAL_MAX <= u.x <= VAL_MAX && -VAL_MAX <= u.y <= VAL_MAX
}

/// Bounds on one varying intensity.
pub open spec fn inten_ok(i: i64) -> bool {
    0 <= i <= INTEN_MAX
}

/// The interpolated texture coordinate of a fragment.
pub open spec fn interp_uv_spec(uv: Slot3<Vec2Fx>, w: Weights) -> Vec2Fx {
    Vec2Fx {
        x: interp3_spec(uv.s0.x as int, uv.s1.x as int, uv.s2.x as int, w) as i64,
        y: interp3_spec(uv.s0.y as int, uv.s1.y as int, uv.s2.y as int, w) as i64,
    }
}

/// Interpolates a varying texture coordinate.
fn interp_uv(uv: &Slot3<Vec2Fx>, w: &Weights) -> (r: Vec2Fx)
    requires
        w.valid(),
        uv_ok(uv.s0),
        uv_ok(uv.s1),
        uv_ok(uv.s2),
    ensures
        r == interp_uv_spec(*uv, *w),
        -VAL_MAX - 1 <= r.x <= VAL_MAX,
        -VAL_MAX - 1 <= r.y <= VAL_MAX,
{
    proof {
        lemma_interp3_bound(uv.s0.x as int, uv.s1.x as int, uv.s2.x as int, *w, VAL_MAX as int);
        lemma_interp3_bound(uv.s0.y as int, uv.s1.y as int, uv.s2.y as int, *w, VAL_MAX as int);
    }
    let x = interp3(uv.s0.x, uv.s1.x, uv.s2.x, w);
    let y = interp3(uv.s0.y, uv.s1.y, uv.s2.y, w);
    Vec2Fx { x, y }
}

impl ShaderPayload for GouraudShader {
    open spec fn inv(&self) -> bool {
        &&& inten_ok(self.varying_intensity.s0)
        &&& inten_ok(self.varying_intensity.s1)
        &&& inten_ok(self.varying_intensity.s2)
        &&& uv_ok(self.varying_uv.s0)
        &&& uv_ok(self.varying_uv.s1)
        &&& uv_ok(self.varying_uv.s2)
    }

    open spec fn staged(&self, slot: int) -> bool {
        self.staged.get(slot)
    }

    open spec fn ready(&self) -> bool {
        self.staged.s0 && self.staged.s1 && self.staged.s2
    }

    open spec fn vertex_spec(&self, iface: int, ivert: int, light: Vec3Fx, model: Model) -> Self {
        GouraudShader {
            varying_intensity: self.varying_intensity.with(
                ivert,
                vertex_intensity_spec(model, iface, ivert, light) as i64,
            ),
            varying_uv: self.varying_uv.with(ivert, calc_uv_spec(model, iface, ivert)),
            staged: self.staged.with(ivert, true),
        }
    }

    open spec fn frag_spec(&self, w: Weights, model: Model) -> Rgb {
        let inten = interp3_spec(
            self.varying_intensity.s0 as int,
            self.varying_intensity.s1 as int,
            self.varying_intensity.s2 as int,
            w,
        );
        scale_rgb_spec(diffuse_spec(model, interp_uv_spec(self.varying_uv, w)), inten)
    }

    proof fn ready_iff_staged(&self) {
    }

    fn vertex(&mut self, iface: usize, ivert: usize, light: &Vec3Fx, model: &Model) {
        let uv = model.calc_uv(iface, ivert);
        let n = model.calc_normal(iface, ivert);
        let d = dot_fx(&n, light);
        let inten: i64 = if d > 0 { d } else { 0 };
        proof {
            lemma_dot_fx_bound(n, *light, FX as int);
        }
        self.varying_uv.set(ivert, uv);
        self.varying_intensity.set(ivert, inten);
        self.staged.set(ivert, true);
    }

    fn fragment(&self, weights: &Weights, model: &Model) -> (color: Rgb) {
        proof {
            lemma_interp3_bound(
                self.varying_intensity.s0 as int,
                self.varying_intensity.s1 as int,
                self.varying_intensity.s2 as int,
                *weights,
                INTEN_MAX as int,
            );
        }
        let inten = interp3(
            self.varying_intensity.s0,
            self.varying_intensity.s1,
            self.varying_intensity.s2,
            weights,
        );
        let uv = interp_uv(&self.varying_uv, weights);
        let base = model.diffuse(&uv);
        scale_rgb(&base, inten)
    }
}

/// The banded color of the unlit "toon" shader: the base color
/// `(79, 147, 184)` scaled by a step function of the intensity, with
/// thresholds at 0.85, 0.6, 0.4, 0.3 and 0.15 of full intensity.
pub open spec fn weird_band_spec(i: int) -> Rgb {
    if 100 * i > 85 * (FX as int) {
        Rgb { r: 79, g: 147, b: 184 }
    } else if 100 * i > 60 * (FX as int) {
        Rgb { r: 63, g: 117, b: 147 }
    } else if 100 * i > 40 * (FX as int) {
        Rgb { r: 47, g: 88, b: 110 }
    } else if 100 * i > 30 * (FX as int) {
        Rgb { r: 31, g: 58, b: 73 }
    } else if 100 * i > 15 * (FX as int) {
        Rgb { r: 23, g: 44, b: 55 }
    } else {
        Rgb { r: 0, g: 0, b: 0 }
    }
}

/// Unlit banded "toon" shading: a fixed base color stepped by the
/// interpolated vertex intensity.
pub struct WeirdShader {
    pub varying_intensity: Slot3<i64>,
    pub staged: Slot3<bool>,
}

impl WeirdShader {
    /// A fresh shader with empty varying state and no slot staged.
    pub fn new() -> (s: WeirdShader)
        ensures
            s.inv(),
            forall|i: int| 0 <= i < 3 ==> !s.staged(i),
    {
        WeirdShader { varying_intensity: Slot3::of(0), staged: Slot3::of(false) }
    }
}

impl ShaderPayload for WeirdShader {
    open spec fn inv(&self) -> bool {
        &&& inten_ok(self.varying_intensity.s0)
        &&& inten_ok(self.varying_intensity.s1)
        &&& inten_ok(self.varying_intensity.s2)
    }

    open spec fn staged(&self, slot: int) -> bool {
        self.staged.get(slot)
    }

    open spec fn ready(&self) -> bool {
        self.staged.s0 && self.staged.s1 && self.staged.s2
    }

    open spec fn vertex_spec(&self, iface: int, ivert: int, light: Vec3Fx, model: Model) -> Self {
        WeirdShader {
            varying_intensity: self.varying_intensity.with(
                ivert,
                vertex_intensity_spec(model, iface, ivert, light) as i64,
            ),
            staged: self.staged.with(ivert, true),
        }
    }

    open spec fn frag_spec(&self, w: Weights, model: Model) -> Rgb {
        weird_band_spec(
            interp3_spec(
                self.varying_intensity.s0 as int,
                self.varying_intensity.s1 as int,
                self.varying_intensity.s2 as int,
                w,
            ),
        )
    }

    proof fn ready_iff_staged(&self) {
    }

    fn vertex(&mut self, iface: usize, ivert: usize, light: &Vec3Fx, model: &Model) {
        let n = model.calc_normal(iface, ivert);
        let d = dot_fx(&n, light);
        let inten: i64 = if d > 0 { d } else { 0 };
        proof {
            lemma_dot_fx_bound(n, *light, FX as int);
        }
        self.varying_intensity.set(ivert, inten);
        self.staged.set(ivert, true);
    }

    fn fragment(&self, weights: &Weights, model: &Model) -> (color: Rgb) {
        proof {
            lemma_interp3_bound(
                self.varying_intensity.s0 as int,
                self.varying_intensity.s1 as int,
                self.varying_intensity.s2 as int,
                *weights,
                INTEN_MAX as int,
            );
        }
        let inten = interp3(
            self.varying_intensity.s0,
            self.varying_intensity.s1,
            self.varying_intensity.s2,
            weights,
        );
        if 100 * inten > 85 * FX {
            Rgb { r: 79, g: 147, b: 184 }
        } else if 100 * inten > 60 * FX {
            Rgb { r: 63, g: 117, b: 147 }
        } else if 100 * inten > 40 * FX {
            Rgb { r: 47, g: 88, b: 110 }
        } else if 100 * inten > 30 * FX {
            Rgb { r: 31, g: 58, b: 73 }
        } else if 100 * inten > 15 * FX {
            Rgb { r: 23, g: 44, b: 55 }
        } else {
            Rgb { r: 0, g: 0, b: 0 }
        }
    }
}

/// Bounds on one varying normal.
pub open spec fn normal_ok(n: Vec3Fx) -> bool {
    n.abs_within(FX as int)
}

/// The interpolated (unnormalized) normal of a fragment; each component
/// stays within one unit plus the floor's slack.
pub open spec fn interp_normal_spec(n: Slot3<Vec3Fx>, w: Weights) -> Vec3Fx {
    Vec3Fx {
        x: interp3_spec(n.s0.x as int, n.s1.x as int, n.s2.x as int, w) as i64,
        y: interp3_spec(n.s0.y as int, n.s1.y as int, n.s2.y as int, w) as i64,
        z: interp3_spec(n.s0.z as int, n.s1.z as int, n.s2.z as int, w) as i64,
    }
}

/// Interpolates a varying normal.
fn interp_normal(n: &Slot3<Vec3Fx>, w: &Weights) -> (r: Vec3Fx)
    requires
        w.valid(),
        normal_ok(n.s0),
        normal_ok(n.s1),
        normal_ok(n.s2),
    ensures
        r == interp_normal_spec(*n, *w),
        r.abs_within(FX as int + 1),
{
    proof {
        lemma_interp3_bound(n.s0.x as int, n.s1.x as int, n.s2.x as int, *w, FX as int);
        lemma_interp3_bound(n.s0.y as int, n.s1.y as int, n.s2.y as int, *w, FX as int);
        lemma_interp3_bound(n.s0.z as int, n.s1.z as int, n.s2.z as int, *w, FX as int);
    }
    let x = interp3(n.s0.x, n.s1.x, n.s2.x, w);
    let y = interp3(n.s0.y, n.s1.y, n.s2.y, w);
    let z = interp3(n.s0.z, n.s1.z, n.s2.z, w);
    Vec3Fx { x, y, z }
}

/// Per-pixel lighting of the plain model surface: the interpolated normal
/// dotted with the light scales plain white.
pub struct PhongShaderModel {
    pub varying_normal: Slot3<Vec3Fx>,
    pub uniform_light: Vec3Fx,
    pub staged: Slot3<bool>,
}

impl PhongShaderModel {
    /// A fresh shader with empty varying state and no slot staged.
    pub fn new() -> (s: PhongShaderModel)
        ensures
            s.inv(),
            forall|i: int| 0 <= i < 3 ==> !s.staged(i),
    {
        PhongShaderModel {
            varying_normal: Slot3::of(Vec3Fx { x: 0, y: 0, z: 0 }),
            uniform_light: Vec3Fx { x: 0, y: 0, z: 0 },
            staged: Slot3::of(false),
        }
    }
}

impl ShaderPayload for PhongShaderModel {
    open spec fn inv(&self) -> bool {
        &&& normal_ok(self.varying_normal.s0)
        &&& normal_ok(self.varying_normal.s1)
        &&& normal_ok(self.varying_normal.s2)
        &&& self.uniform_light.abs_within(FX as int)
    }

    open spec fn staged(&self, slot: int) -> bool {
        self.staged.get(slot)
    }

    open spec fn ready(&self) -> bool {
        self.staged.s0 && self.staged.s1 && self.staged.s2
    }

    open spec fn vertex_spec(&self, iface: int, ivert: int, light: Vec3Fx, model: Model) -> Self {
        PhongShaderModel {
            varying_normal: self.varying_normal.with(ivert, calc_normal_spec(model, iface, ivert)),
            uniform_light: light,
            staged: self.staged.with(ivert, true),
        }
    }

    open spec fn frag_spec(&self, w: Weights, model: Model) -> Rgb {
        let inten = max0(
            dot_fx_spec(interp_normal_spec(self.varying_normal, w), self.uniform_light),
        );
        scale_rgb_spec(Rgb { r: 255, g: 255, b: 255 }, inten)
    }

    proof fn ready_iff_staged(&self) {
    }

    fn vertex(&mut self, iface: usize, ivert: usize, light: &Vec3Fx, model: &Model) {
        let n = model.calc_normal(iface, ivert);
        self.varying_normal.set(ivert, n);
        self.uniform_light = *light;
        self.staged.set(ivert, true);
    }

    fn fragment(&self, weights: &Weights, model: &Model) -> (color: Rgb) {
        let n = interp_normal(&self.varying_normal, weights);
        let d = dot_fx(&n, &self.uniform_light);
        let inten: i64 = if d > 0 { d } else { 0 };
        scale_rgb(&Rgb { r: 255, g: 255, b: 255 }, inten)
    }
}

/// Clamps a fixed-point value to `[0, FX]` (the unit interval).
pub open spec fn clamp01_spec(v: int) -> int {
    if v < 0 {
        0
    } else if v > FX as int {
        FX as int
    } else {
        v
    }
}

/// A direction transformed by a uniform matrix and normalized:
/// `normalize((m * (v, 1)).xyz)`.
pub open spec fn transform_dir_spec(m: Mat4Fx, v: Vec3Fx) -> Vec3Fx {
    vec3fx_of(normalize_fx_spec(vec3fx_of(mat4_apply_xyz_spec(m, v))))
}

/// Transforms a direction by a uniform matrix and normalizes it.
fn transform_dir(m: &Mat4Fx, v: &Vec3Fx) -> (r: Vec3Fx)
    requires
        m.abs_within(MAT_MAX as int),
        v.abs_within(VEC_IN_MAX as int),
    ensures
        r == transform_dir_spec(*m, *v),
        r.abs_within(FX as int),
{
    let t = mat4_apply_xyz(m, v);
    proof {
        assert(t == vec3fx_of(mat4_apply_xyz_spec(*m, *v)));
    }
    let r = normalize_fx(&t);
    proof {
        assert(r == transform_dir_spec(*m, *v));
    }
    r
}

/// The reflection direction of the Phong model:
/// `normalize(n * (2 * (n . l)) - l)`.
pub open spec fn reflect_spec(n: Vec3Fx, l: Vec3Fx) -> Vec3Fx {
    let d = dot_fx_spec(n, l);
    let t = Vec3Fx {
        x: (n.x * (2 * d) / (FX as int) - l.x) as i64,
        y: (n.y * (2 * d) / (FX as int) - l.y) as i64,
        z: (n.z * (2 * d) / (FX as int) - l.z) as i64,
    };
    vec3fx_of(normalize_fx_spec(t))
}

/// Computes the Phong reflection direction.
fn reflect(n: &Vec3Fx, l: &Vec3Fx) -> (r: Vec3Fx)
    requires
        n.abs_within(FX as int + 1),
        l.abs_within(FX as int),
    ensures
        r == reflect_spec(*n, *l),
        r.abs_within(FX as int),
{
    let d = dot_fx(n, l);
    proof {
        lemma_dot_fx_bound(*n, *l, FX as int + 1);
        assert(-0x2000000000 <= (n.x as int) * (2 * d as int) <= 0x2000000000
            && -0x2000000000 <= (n.y as int) * (2 * d as int) <= 0x2000000000
            && -0x2000000000 <= (n.z as int) * (2 * d as int) <= 0x2000000000)
            by (nonlinear_arith)
            requires
                -0x10001 <= n.x <= 0x10001,
                -0x10001 <= n.y <= 0x10001,
                -0x10001 <= n.z <= 0x10001,
                -0x100000 <= 2 * d as int <= 0x100000;
    }
    let tx = div_floor((n.x as i128) * (2 * d as i128), FX as i128);
    let ty = div_floor((n.y as i128) * (2 * d as i128), FX as i128);
    let tz = div_floor((n.z as i128) * (2 * d as i128), FX as i128);
    proof {
        lemma_div_range((n.x as int) * (2 * d as int), 0x2000000000, FX as int);
        lemma_div_range((n.y as int) * (2 * d as int), 0x2000000000, FX as int);
        lemma_div_range((n.z as int) * (2 * d as int), 0x2000000000, FX as int);
    }
    let t = Vec3Fx {
        x: (tx as i64) - l.x,
        y: (ty as i64) - l.y,
        z: (tz as i64) - l.z,
    };
    let r = normalize_fx(&t);
    proof {
        assert(r == reflect_spec(*n, *l));
    }
    r
}

/// One color channel under the Phong reflectance combination:
/// `min(235, 5 + c * s / FX)` for the summed diffuse and specular
/// intensity `s` (the additive 5 and the 235 ceiling are deliberate
/// headroom constants).
pub open spec fn phong_channel_spec(c: u8, s: int) -> u8 {
    let v = 5 + c * s / (FX as int);
    if v > 235 {
        235u8
    } else if v < 0 {
        0u8
    } else {
        v as u8
    }
}

/// Computes one Phong output channel.
fn phong_channel(c: u8, s: i64) -> (r: u8)
    requires
        0 <= s <= 0x400000000000,
    ensures
        r == phong_channel_spec(c, s as int),
{
    proof {
        assert((c as int) * (s as int) <= 0x100000000000000) by (nonlinear_arith)
            requires
                0 <= c <= 255,
                0 <= s <= 0x400000000000;
    }
    let v = ((c as u128) * (s as u128)) / (FX as u128);
    if v > 230 {
        235
    } else {
        (5 + v) as u8
    }
}

/// A color under the Phong reflectance combination, channel by channel.
pub open spec fn phong_rgb_spec(c: Rgb, s: int) -> Rgb {
    Rgb {
        r: phong_channel_spec(c.r, s),
        g: phong_channel_spec(c.g, s),
        b: phong_channel_spec(c.b, s),
    }
}

fn phong_rgb(c: &Rgb, s: i64) -> (r: Rgb)
    requires
        0 <= s <= 0x400000000000,
    ensures
        r == phong_rgb_spec(*c, s as int),
{
    Rgb { r: phong_channel(c.r, s), g: phong_channel(c.g, s), b: phong_channel(c.b, s) }
}

/// The fixed-point normal-map sample at a texture coordinate.
pub open spec fn nm_fx_spec(m: Model, uv: Vec2Fx) -> Vec3Fx {
    let t = normal_spec(m, uv);
    vec3fx_of((t.0 * (FX as int) / 255, t.1 * (FX as int) / 255, t.2 * (FX as int) / 255))
}

/// Samples the normal map and converts it to fixed point.
fn nm_fx(m: &Model, uv: &Vec2Fx) -> (n: Vec3Fx)
    requires
        m.wf(),
        -VAL_MAX - 1 <= uv.x <= VAL_MAX + 1,
        -VAL_MAX - 1 <= uv.y <= VAL_MAX + 1,
    ensures
        n == nm_fx_spec(*m, *uv),
        n.abs_within(FX as int),
{
    let un = m.normal(uv);
    let n = normal_to_fx(&un);
    proof {
        assert(n == nm_fx_spec(*m, *uv));
    }
    n
}

/// Per-pixel Phong lighting with a diffuse texture: the interpolated
/// geometric normal lights the sampled texel.
pub struct PhongShaderDiff {
    pub varying_normal: Slot3<Vec3Fx>,
    pub uniform_light: Vec3Fx,
    pub varying_uv: Slot3<Vec2Fx>,
    pub staged: Slot3<bool>,
}

impl PhongShaderDiff {
    /// A fresh shader with empty varying state and no slot staged.
    pub fn new() -> (s: PhongShaderDiff)
        ensures
            s.inv(),
            forall|i: int| 0 <= i < 3 ==> !s.staged(i),
    {
        PhongShaderDiff {
            varying_normal: Slot3::of(Vec3Fx { x: 0, y: 0, z: 0 }),
            uniform_light: Vec3Fx { x: 0, y: 0, z: 0 },
            varying_uv: Slot3::of(Vec2Fx { x: 0, y: 0 }),
            staged: Slot3::of(false),
        }
    }
}

impl ShaderPayload for PhongShaderDiff {
    open spec fn inv(&self) -> bool {
        &&& normal_ok(self.varying_normal.s0)
        &&& normal_ok(self.varying_normal.s1)
        &&& normal_ok(self.varying_normal.s2)
        &&& uv_ok(self.varying_uv.s0)
        &&& uv_ok(self.varying_uv.s1)
        &&& uv_ok(self.varying_uv.s2)
        &&& self.uniform_light.abs_within(FX as int)
    }

    open spec fn staged(&self, slot: int) -> bool {
        self.staged.get(slot)
    }

    open spec fn ready(&self) -> bool {
        self.staged.s0 && self.staged.s1 && self.staged.s2
    }

    open spec fn vertex_spec(&self, iface: int, ivert: int, light: Vec3Fx, model: Model) -> Self {
        PhongShaderDiff {
            varying_normal: self.varying_normal.with(ivert, calc_normal_spec(model, iface, ivert)),
            uniform_light: light,
            varying_uv: self.varying_uv.with(ivert, calc_uv_spec(model, iface, ivert)),
            staged: self.staged.with(ivert, true),
        }
    }

    open spec fn frag_spec(&self, w: Weights, model: Model) -> Rgb {
        let uv = interp_uv_spec(self.varying_uv, w);
        let inten = max0(
            dot_fx_spec(interp_normal_spec(self.varying_normal, w), self.uniform_light),
        );
        scale_rgb_spec(diffuse_spec(model, uv), inten)
    }

    proof fn ready_iff_staged(&self) {
    }

    fn vertex(&mut self, iface: usize, ivert: usize, light: &Vec3Fx, model: &Model) {
        let n = model.calc_normal(iface, ivert);
        let uv = model.calc_uv(iface, ivert);
        self.uniform_light = *light;
        self.varying_normal.set(ivert, n);
        self.varying_uv.set(ivert, uv);
        self.staged.set(ivert, true);
    }

    fn fragment(&self, weights: &Weights, model: &Model) -> (color: Rgb) {
        let uv = interp_uv(&self.varying_uv, weights);
        let n = interp_normal(&self.varying_normal, weights);
        let d = dot_fx(&n, &self.uniform_light);
        let inten: i64 = if d > 0 { d } else { 0 };
        let base = model.diffuse(&uv);
        scale_rgb(&base, inten)
    }
}

/// Per-pixel Phong lighting with texture, interpolated geometric normals
/// and a specular-exponent map: diffuse plus specular reflectance.
pub struct PhongShaderSpec {
    pub varying_normal: Slot3<Vec3Fx>,
    pub uniform_light: Vec3Fx,
    pub varying_uv: Slot3<Vec2Fx>,
    pub uniform_m: Mat4Fx,
    pub staged: Slot3<bool>,
}

impl PhongShaderSpec {
    /// A fresh shader around the projection-times-view matrix that maps
    /// the light direction into eye space.
    pub fn new(m: &Mat4Fx) -> (s: PhongShaderSpec)
        requires
            m.abs_within(MAT_MAX as int),
        ensures
            s.inv(),
            s.uniform_m == *m,
            forall|i: int| 0 <= i < 3 ==> !s.staged(i),
    {
        PhongShaderSpec {
            varying_normal: Slot3::of(Vec3Fx { x: 0, y: 0, z: 0 }),
            uniform_light: Vec3Fx { x: 0, y: 0, z: 0 },
            varying_uv: Slot3::of(Vec2Fx { x: 0, y: 0 }),
            uniform_m: *m,
            staged: Slot3::of(false),
        }
    }
}

impl ShaderPayload for PhongShaderSpec {
    open spec fn inv(&self) -> bool {
        &&& normal_ok(self.varying_normal.s0)
        &&& normal_ok(self.varying_normal.s1)
        &&& normal_ok(self.varying_normal.s2)
        &&& uv_ok(self.varying_uv.s0)
        &&& uv_ok(self.varying_uv.s1)
        &&& uv_ok(self.varying_uv.s2)
        &&& self.uniform_light.abs_within(FX as int)
        &&& self.uniform_m.abs_within(MAT_MAX as int)
    }

    open spec fn staged(&self, slot: int) -> bool {
        self.staged.get(slot)
    }

    open spec fn ready(&self) -> bool {
        self.staged.s0 && self.staged.s1 && self.staged.s2
    }

    open spec fn vertex_spec(&self, iface: int, ivert: int, light: Vec3Fx, model: Model) -> Self {
        PhongShaderSpec {
            varying_normal: self.varying_normal.with(ivert, calc_normal_spec(model, iface, ivert)),
            uniform_light: light,
            varying_uv: self.varying_uv.with(ivert, calc_uv_spec(model, iface, ivert)),
            uniform_m: self.uniform_m,
            staged: self.staged.with(ivert, true),
        }
    }

    open spec fn frag_spec(&self, w: Weights, model: Model) -> Rgb {
        let uv = interp_uv_spec(self.varying_uv, w);
        let n = interp_normal_spec(self.varying_normal, w);
        let l = transform_dir_spec(self.uniform_m, self.uniform_light);
        let r = reflect_spec(n, l);
        let si = pow_fx_spec(clamp01_spec(r.z as int), specular_spec(model, uv) as nat);
        let di = max0(dot_fx_spec(n, l));
        phong_rgb_spec(diffuse_spec(model, uv), di + si)
    }

    proof fn ready_iff_staged(&self) {
    }

    fn vertex(&mut self, iface: usize, ivert: usize, light: &Vec3Fx, model: &Model) {
        let n = model.calc_normal(iface, ivert);
        let uv = model.calc_uv(iface, ivert);
        self.uniform_light = *light;
        self.varying_normal.set(ivert, n);
        self.varying_uv.set(ivert, uv);
        self.staged.set(ivert, true);
    }

    fn fragment(&self, weights: &Weights, model: &Model) -> (color: Rgb) {
        let uv = interp_uv(&self.varying_uv, weights);
        let n = interp_normal(&self.varying_normal, weights);
        let l = transform_dir(&self.uniform_m, &self.uniform_light);
        let r = reflect(&n, &l);
        let rz: i64 = if r.z < 0 { 0 } else if r.z > FX { FX } else { r.z };
        let e = model.specular(&uv);
        let si = pow_fx(rz, e as u16);
        let d = dot_fx(&n, &l);
        let di: i64 = if d > 0 { d } else { 0 };
        proof {
            lemma_dot_fx_bound(n, l, FX as int + 1);
        }
        let base = model.diffuse(&uv);
        phong_rgb(&base, di + si)
    }
}

/// Per-pixel Phong lighting with texture and normal mapping: normals come
/// from the normal map, transformed by the inverse-transpose matrix.
pub struct PhongShaderNm {
    pub varying_uv: Slot3<Vec2Fx>,
    pub uniform_light: Vec3Fx,
    pub uniform_m: Mat4Fx,
    pub uniform_mit: Mat4Fx,
    pub staged: Slot3<bool>,
}

impl PhongShaderNm {
    /// A fresh shader around the eye-space matrix `m` and its
    /// inverse-transpose `mit` for transforming sampled normals.
    pub fn new(m: &Mat4Fx, mit: &Mat4Fx) -> (s: PhongShaderNm)
        requires
            m.abs_within(MAT_MAX as int),
            mit.abs_within(MAT_MAX as int),
        ensures
            s.inv(),
            s.uniform_m == *m,
            s.uniform_mit == *mit,
            forall|i: int| 0 <= i < 3 ==> !s.staged(i),
    {
        PhongShaderNm {
            varying_uv: Slot3::of(Vec2Fx { x: 0, y: 0 }),
            uniform_light: Vec3Fx { x: 0, y: 0, z: 0 },
            uniform_m: *m,
            uniform_mit: *mit,
            staged: Slot3::of(false),
        }
    }
}

impl ShaderPayload for PhongShaderNm {
    open spec fn inv(&self) -> bool {
        &&& uv_ok(self.varying_uv.s0)
        &&& uv_ok(self.varying_uv.s1)
        &&& uv_ok(self.varying_uv.s2)
        &&& self.uniform_light.abs_within(FX as int)
        &&& self.uniform_m.abs_within(MAT_MAX as int)
        &&& self.uniform_mit.abs_within(MAT_MAX as int)
    }

    open spec fn staged(&self, slot: int) -> bool {
        self.staged.get(slot)
    }

    open spec fn ready(&self) -> bool {
        self.staged.s0 && self.staged.s1 && self.staged.s2
    }

    open spec fn vertex_spec(&self, iface: int, ivert: int, light: Vec3Fx, model: Model) -> Self {
        PhongShaderNm {
            varying_uv: self.varying_uv.with(ivert, calc_uv_spec(model, iface, ivert)),
            uniform_light: light,
            uniform_m: self.uniform_m,
            uniform_mit: self.uniform_mit,
            staged: self.staged.with(ivert, true),
        }
    }

    open spec fn frag_spec(&self, w: Weights, model: Model) -> Rgb {
        let uv = interp_uv_spec(self.varying_uv, w);
        let n = transform_dir_spec(self.uniform_mit, nm_fx_spec(model, uv));
        let l = transform_dir_spec(self.uniform_m, self.uniform_light);
        let di = max0(dot_fx_spec(n, l));
        scale_rgb_spec(diffuse_spec(model, uv), di)
    }

    proof fn ready_iff_staged(&self) {
    }

    fn vertex(&mut self, iface: usize, ivert: usize, light: &Vec3Fx, model: &Model) {
        let uv = model.calc_uv(iface, ivert);
        self.uniform_light = *light;
        self.varying_uv.set(ivert, uv);
        self.staged.set(ivert, true);
    }

    fn fragment(&self, weights: &Weights, model: &Model) -> (color: Rgb) {
        let uv = interp_uv(&self.varying_uv, weights);
        let nmv = nm_fx(model, &uv);
        let n = transform_dir(&self.uniform_mit, &nmv);
        let l = transform_dir(&self.uniform_m, &self.uniform_light);
        let d = dot_fx(&n, &l);
        let di: i64 = if d > 0 { d } else { 0 };
        let base = model.diffuse(&uv);
        scale_rgb(&base, di)
    }
}

/// The full Phong pipeline: texture-mapped diffuse color, normal-mapped
/// normals, and a specular-exponent map.
pub struct PhongShaderNmSpec {
    pub varying_uv: Slot3<Vec2Fx>,
    pub uniform_light: Vec3Fx,
    pub uniform_m: Mat4Fx,
    pub uniform_mit: Mat4Fx,
    pub staged: Slot3<bool>,
}

impl PhongShaderNmSpec {
    /// A fresh shader around the eye-space matrix `m` and its
    /// inverse-transpose `mit` for transforming sampled normals.
    pub fn new(m: &Mat4Fx, mit: &Mat4Fx) -> (s: PhongShaderNmSpec)
        requires
            m.abs_within(MAT_MAX as int),
            mit.abs_within(MAT_MAX as int),
        ensures
            s.inv(),
            s.uniform_m == *m,
            s.uniform_mit == *mit,
            forall|i: int| 0 <= i < 3 ==> !s.staged(i),
    {
        PhongShaderNmSpec {
            varying_uv: Slot3::of(Vec2Fx { x: 0, y: 0 }),
            uniform_light: Vec3Fx { x: 0, y: 0, z: 0 },
            uniform_m: *m,
            uniform_mit: *mit,
            staged: Slot3::of(false),
        }
    }
}

impl ShaderPayload for PhongShaderNmSpec {
    open spec fn inv(&self) -> bool {
        &&& uv_ok(self.varying_uv.s0)
        &&& uv_ok(self.varying_uv.s1)
        &&& uv_ok(self.varying_uv.s2)
        &&& self.uniform_light.abs_within(FX as int)
        &&& self.uniform_m.abs_within(MAT_MAX as int)
        &&& self.uniform_mit.abs_within(MAT_MAX as int)
    }

    open spec fn staged(&self, slot: int) -> bool {
        self.staged.get(slot)
    }

    open spec fn ready(&self) -> bool {
        self.staged.s0 && self.staged.s1 && self.staged.s2
    }

    open spec fn vertex_spec(&self, iface: int, ivert: int, light: Vec3Fx, model: Model) -> Self {
        PhongShaderNmSpec {
            varying_uv: self.varying_uv.with(ivert, calc_uv_spec(model, iface, ivert)),
            uniform_light: light,
            uniform_m: self.uniform_m,
            uniform_mit: self.uniform_mit,
            staged: self.staged.with(ivert, true),
        }
    }

    open spec fn frag_spec(&self, w: Weights, model: Model) -> Rgb {
        let uv = interp_uv_spec(self.varying_uv, w);
        let n = transform_dir_spec(self.uniform_mit, nm_fx_spec(model, uv));
        let l = transform_dir_spec(self.uniform_m, self.uniform_light);
        let r = reflect_spec(n, l);
        let si = pow_fx_spec(clamp01_spec(r.z as int), specular_spec(model, uv) as nat);
        let di = max0(dot_fx_spec(n, l));
        phong_rgb_spec(diffuse_spec(model, uv), di + si)
    }

    proof fn ready_iff_staged(&self) {
    }

    fn vertex(&mut self, iface: usize, ivert: usize, light: &Vec3Fx, model: &Model) {
        let uv = model.calc_uv(iface, ivert);
        self.uniform_light = *light;
        self.varying_uv.set(ivert, uv);
        self.staged.set(ivert, true);
    }

    fn fragment(&self, weights: &Weights, model: &Model) -> (color: Rgb) {
        let uv = interp_uv(&self.varying_uv, weights);
        let nmv = nm_fx(model, &uv);
        let n = transform_dir(&self.uniform_mit, &nmv);
        let l = transform_dir(&self.uniform_m, &self.uniform_light);
        let r = reflect(&n, &l);
        let rz: i64 = if r.z < 0 { 0 } else if r.z > FX { FX } else { r.z };
        let e = model.specular(&uv);
        let si = pow_fx(rz, e as u16);
        let d = dot_fx(&n, &l);
        let di: i64 = if d > 0 { d } else { 0 };
        proof {
            lemma_dot_fx_bound(n, l, FX as int);
        }
        let base = model.diffuse(&uv);
        phong_rgb(&base, di + si)
    }
}

} // verus!
