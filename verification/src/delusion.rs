//! The rasterizer core: frame buffer, depth buffer and triangle scan
//! conversion with depth testing and optional 4x multisampling.
//!
//! The depth convention is max-wins: buffers clear to the smallest value
//! and a sample is accepted when its depth is at least the stored depth
//! (this renderer's projection maps the near plane to larger post-divide
//! values).  Buffer accessors are bounds-checked: reads outside the
//! buffer return the neutral sentinel 0 and writes outside it are no-ops,
//! so boundary triangles never fault.

use crate::graphics::{
    barycentric, bbox_max_x, bbox_max_y, bbox_min_x, bbox_min_y, bounding_box, calc_conv,
    conv_off_x, conv_off_y, depth_at, depth_from_weights, from_u8_rgb, interior, interior_at,
    lemma_depth_at_bounds, max2, min2, pack_rgb, pixel_ceil, pixel_ceil_of, weights_at,
    MsaaOptions, MsaaTensor, Rgb, ScreenTriangle, DEPTH_MAX, DEPTH_MIN, MSAA_LEVEL,
};
use crate::model::{lemma_grid_index, Model};
use crate::shader::ShaderPayload;
use crate::transform::SUB;
use vstd::arithmetic::div_mod::{
    lemma_div_is_ordered, lemma_div_pos_is_pos, lemma_fundamental_div_mod_converse,
};
use vstd::prelude::*;

verus! {

/// Largest frame buffer side length the rasterizer accepts.
pub const DIM_MAX: usize = 4096;

/// The rasterizer: owns the packed frame buffer, the depth buffer and
/// the multisampling switch.  The frame buffer is row-major with a
/// vertical flip on write, so row 0 of the stored buffer is the top and
/// pixel `(x, 0)` of the drawing coordinates is the bottom row.
pub struct Delusion {
    width: usize,
    height: usize,
    f_buffer: Vec<u32>,
    d_buffer: Vec<i64>,
    msaa_status: MsaaOptions,
}

/// Row-major positions `(x1, y1)` and `(x2, y2)` with columns below `w`
/// share an index only if they are the same position.
pub proof fn lemma_row_major_injective(w: int, x1: int, y1: int, x2: int, y2: int)
    requires
        0 <= x1 < w,
        0 <= x2 < w,
        0 <= y1,
        0 <= y2,
        y1 * w + x1 == y2 * w + x2,
    ensures
        x1 == x2 && y1 == y2,
{
    assert(x1 == x2 && y1 == y2) by (nonlinear_arith)
        requires
            0 <= x1 < w,
            0 <= x2 < w,
            0 <= y1,
            0 <= y2,
            y1 * w + x1 == y2 * w + x2;
}

/// A pixel position inside a buffer of sides at most `DIM_MAX` has a
/// small row-major index.
proof fn lemma_small_grid(w: int, h: int, x: int, y: int)
    requires
        0 <= x < w <= 4096,
        0 <= y < h <= 4096,
    ensures
        0 <= y * w,
        y * w + x < w * h,
        w * h <= 16777216,
{
    assert(0 <= y * w && y * w + x < w * h && w * h <= 16777216) by (nonlinear_arith)
        requires
            0 <= x < w <= 4096,
            0 <= y < h <= 4096;
}

/// Fills a fresh vector with `n` copies of one value.
fn filled_vec<T: Copy>(n: usize, val: T) -> (v: Vec<T>)
    ensures
        v@.len() == n,
        forall|i: int| 0 <= i < n ==> v@[i] == val,
{
    let mut v: Vec<T> = Vec::new();
    let mut i: usize = 0;
    while i < n
        invariant
            i <= n,
            v@.len() == i,
            forall|k: int| 0 <= k < i ==> v@[k] == val,
        decreases n - i,
    {
        v.push(val);
        i = i + 1;
    }
    v
}

impl Delusion {
    /// The buffer width in pixels.
    pub closed spec fn w_spec(self) -> int {
        self.width as int
    }

    /// The buffer height in pixels.
    pub closed spec fn h_spec(self) -> int {
        self.height as int
    }

    /// The packed frame buffer contents.
    pub closed spec fn fb(self) -> Seq<u32> {
        self.f_buffer@
    }

    /// The depth buffer contents.
    pub closed spec fn db(self) -> Seq<i64> {
        self.d_buffer@
    }

    /// The multisampling switch.
    pub closed spec fn msaa(self) -> MsaaOptions {
        self.msaa_status
    }

    /// Dimension bounds and buffer sizes.
    pub open spec fn wf(self) -> bool {
        &&& self.w_spec() <= DIM_MAX
        &&& self.h_spec() <= DIM_MAX
        &&& self.fb().len() == self.w_spec() * self.h_spec()
        &&& self.db().len() == self.w_spec() * self.h_spec()
    }

    /// The frame-buffer index of drawing pixel `(x, y)`: row-major with
    /// the vertical flip.
    pub open spec fn fb_index(self, x: int, y: int) -> int {
        (self.h_spec() - 1 - y) * self.w_spec() + x
    }

    /// The depth-buffer index of pixel `(x, y)`: plain row-major.
    pub open spec fn db_index(self, x: int, y: int) -> int {
        y * self.w_spec() + x
    }

    /// The stored depth of a pixel, with the neutral sentinel 0 outside
    /// the buffer.
    pub open spec fn depth_read(self, x: int, y: int) -> i64 {
        if 0 <= x < self.w_spec() && 0 <= y < self.h_spec() {
            self.db()[self.db_index(x, y)]
        } else {
            0
        }
    }

    /// A fresh rasterizer: black frame buffer, depth cleared to the
    /// far sentinel, multisampling off.
    pub fn new(width: usize, height: usize) -> (d: Delusion)
        requires
            width <= DIM_MAX,
            height <= DIM_MAX,
        ensures
            d.wf(),
            d.w_spec() == width,
            d.h_spec() == height,
            d.msaa() == MsaaOptions::Disable,
            forall|i: int| 0 <= i < d.fb().len() ==> d.fb()[i] == 0,
            forall|i: int| 0 <= i < d.db().len() ==> d.db()[i] == DEPTH_MIN,
    {
        proof {
            assert(width * height <= 16777216) by (nonlinear_arith)
                requires
                    width <= 4096,
                    height <= 4096;
        }
        let n = width * height;
        Delusion {
            width,
            height,
            f_buffer: filled_vec(n, 0u32),
            d_buffer: filled_vec(n, DEPTH_MIN),
            msaa_status: MsaaOptions::Disable,
        }
    }

    /// Fills the whole frame buffer with one color.
    pub fn clear_frame_buff(&mut self, color: &Rgb)
        requires
            old(self).wf(),
        ensures
            final(self).wf(),
            final(self).w_spec() == old(self).w_spec(),
            final(self).h_spec() == old(self).h_spec(),
            final(self).msaa() == old(self).msaa(),
            final(self).db() == old(self).db(),
            final(self).fb().len() == old(self).fb().len(),
            forall|i: int|
                0 <= i < final(self).fb().len() ==> final(self).fb()[i] == pack_rgb(*color),
    {
        let n = self.f_buffer.len();
        let p = from_u8_rgb(color.r, color.g, color.b);
        self.f_buffer = filled_vec(n, p);
    }

    /// Resets every depth to the far sentinel.
    pub fn clear_depth_buff(&mut self)
        requires
            old(self).wf(),
        ensures
            final(self).wf(),
            final(self).w_spec() == old(self).w_spec(),
            final(self).h_spec() == old(self).h_spec(),
            final(self).msaa() == old(self).msaa(),
            final(self).fb() == old(self).fb(),
            final(self).db().len() == old(self).db().len(),
            forall|i: int|
                0 <= i < final(self).db().len() ==> final(self).db()[i] == DEPTH_MIN,
    {
        let n = self.d_buffer.len();
        self.d_buffer = filled_vec(n, DEPTH_MIN);
    }

    /// Writes one pixel of the frame buffer, flipped vertically; a write
    /// outside the buffer is a no-op.
    pub fn set_color(&mut self, x: usize, y: usize, color: &Rgb)
        requires
            old(self).wf(),
        ensures
            final(self).wf(),
            final(self).w_spec() == old(self).w_spec(),
            final(self).h_spec() == old(self).h_spec(),
            final(self).msaa() == old(self).msaa(),
            final(self).db() == old(self).db(),
            x < old(self).w_spec() && y < old(self).h_spec() ==> final(self).fb() == old(
                self,
            ).fb().update(old(self).fb_index(x as int, y as int), pack_rgb(*color) as u32),
            !(x < old(self).w_spec() && y < old(self).h_spec()) ==> final(self).fb() == old(
                self,
            ).fb(),
    {
        if x >= self.width || y >= self.height {
            return ;
        }
        proof {
            lemma_small_grid(self.w_spec(), self.h_spec(), x as int, self.h_spec() - 1 - y);
        }
        let index = (self.height - 1 - y) * self.width + x;
        let p = from_u8_rgb(color.r, color.g, color.b);
        self.f_buffer[index] = p;
    }

    /// Reads one stored depth; outside the buffer the neutral sentinel 0
    /// comes back.
    pub fn get_depth(&self, x: usize, y: usize) -> (d: i64)
        requires
            self.wf(),
        ensures
            d == self.depth_read(x as int, y as int),
    {
        if x >= self.width || y >= self.height {
            return 0;
        }
        proof {
            lemma_small_grid(self.w_spec(), self.h_spec(), x as int, y as int);
        }
        self.d_buffer[y * self.width + x]
    }

    /// Writes one stored depth; a write outside the buffer is a no-op.
    pub fn set_depth(&mut self, x: usize, y: usize, value: i64)
        requires
            old(self).wf(),
        ensures
            final(self).wf(),
            final(self).w_spec() == old(self).w_spec(),
            final(self).h_spec() == old(self).h_spec(),
            final(self).msaa() == old(self).msaa(),
            final(self).fb() == old(self).fb(),
            x < old(self).w_spec() && y < old(self).h_spec() ==> final(self).db() == old(
                self,
            ).db().update(old(self).db_index(x as int, y as int), value),
            !(x < old(self).w_spec() && y < old(self).h_spec()) ==> final(self).db() == old(
                self,
            ).db(),
    {
        if x >= self.width || y >= self.height {
            return ;
        }
        proof {
            lemma_small_grid(self.w_spec(), self.h_spec(), x as int, y as int);
        }
        self.d_buffer[y * self.width + x] = value;
    }

    /// Switches multisampling on.
    #[inline]
    pub fn enable_msaa(&mut self, option: MsaaOptions)
        ensures
            final(self).msaa() == option,
            final(self).w_spec() == old(self).w_spec(),
            final(self).h_spec() == old(self).h_spec(),
            final(self).fb() == old(self).fb(),
            final(self).db() == old(self).db(),
            old(self).wf() ==> final(self).wf(),
    {
        self.msaa_status = option;
    }

    /// Switches multisampling off.
    #[inline]
    pub fn disable_msaa(&mut self)
        ensures
            final(self).msaa() == MsaaOptions::Disable,
            final(self).w_spec() == old(self).w_spec(),
            final(self).h_spec() == old(self).h_spec(),
            final(self).fb() == old(self).fb(),
            final(self).db() == old(self).db(),
            old(self).wf() ==> final(self).wf(),
    {
        self.msaa_status = MsaaOptions::Disable;
    }

    /// The multisampling switch.
    #[inline]
    pub fn msaa_status(&self) -> (s: &MsaaOptions)
        ensures
            *s == self.msaa(),
    {
        &self.msaa_status
    }

    /// The packed frame buffer, for presentation.
    #[inline]
    pub fn get_frame_buff(&self) -> (b: &Vec<u32>)
        ensures
            b@ == self.fb(),
    {
        &self.f_buffer
    }

    /// The buffer width in pixels.
    #[inline]
    pub fn w(&self) -> (r: usize)
        ensures
            r == self.w_spec(),
    {
        self.width
    }

    /// The buffer height in pixels.
    #[inline]
    pub fn h(&self) -> (r: usize)
        ensures
            r == self.h_spec(),
    {
        self.height
    }
}

/// The sub-pixel position of subsample `j` of pixel column `x`.
pub open spec fn sample_px(x: int, j: int) -> int {
    x * (SUB as int) + conv_off_x(j)
}

/// The sub-pixel position of subsample `j` of pixel row `y`.
pub open spec fn sample_py(y: int, j: int) -> int {
    y * (SUB as int) + conv_off_y(j)
}

/// What one single-sample visit does to a pixel holding `(oldc, oldd)`:
/// if the sample point lies in the triangle and its depth passes the
/// max-wins test, the pixel takes the shaded color and the new depth;
/// otherwise it is untouched.
pub open spec fn plain_pixel_spec<T: ShaderPayload>(
    t: ScreenTriangle,
    shader: T,
    model: Model,
    oldc: u32,
    oldd: i64,
    px: int,
    py: int,
) -> (u32, i64) {
    if interior_at(t, px, py) && oldd <= depth_at(t, px, py) {
        (
            pack_rgb(shader.frag_spec(weights_at(t, px, py), model)) as u32,
            depth_at(t, px, py) as i64,
        )
    } else {
        (oldc, oldd)
    }
}

/// Whether subsample `j` of pixel `(x, y)` is covered by the triangle.
pub open spec fn msaa_covered(t: ScreenTriangle, x: int, y: int, j: int) -> bool {
    interior_at(t, sample_px(x, j), sample_py(y, j))
}

/// The depth of subsample `j` of pixel `(x, y)`.
pub open spec fn msaa_dep(t: ScreenTriangle, x: int, y: int, j: int) -> int {
    depth_at(t, sample_px(x, j), sample_py(y, j))
}

/// The shaded color of subsample `j` of pixel `(x, y)`.
pub open spec fn msaa_col<T: ShaderPayload>(
    t: ScreenTriangle,
    shader: T,
    model: Model,
    x: int,
    y: int,
    j: int,
) -> Rgb {
    shader.frag_spec(weights_at(t, sample_px(x, j), sample_py(y, j)), model)
}

/// How many of the first `j` subsamples are covered.
pub open spec fn hit_count(t: ScreenTriangle, x: int, y: int, j: int) -> int
    decreases j,
{
    if j <= 0 {
        0
    } else {
        hit_count(t, x, y, j - 1) + if msaa_covered(t, x, y, j - 1) {
            1int
        } else {
            0int
        }
    }
}

/// The sum of the covered subsamples' depths among the first `j`.
pub open spec fn dep_sum(t: ScreenTriangle, x: int, y: int, j: int) -> int
    decreases j,
{
    if j <= 0 {
        0
    } else {
        dep_sum(t, x, y, j - 1) + if msaa_covered(t, x, y, j - 1) {
            msaa_dep(t, x, y, j - 1)
        } else {
            0int
        }
    }
}

/// The channel-wise sum of the covered subsamples' colors among the
/// first `j`.
pub open spec fn col_sum<T: ShaderPayload>(
    t: ScreenTriangle,
    shader: T,
    model: Model,
    x: int,
    y: int,
    j: int,
) -> (int, int, int)
    decreases j,
{
    if j <= 0 {
        (0, 0, 0)
    } else {
        let p = col_sum(t, shader, model, x, y, j - 1);
        if msaa_covered(t, x, y, j - 1) {
            let c = msaa_col(t, shader, model, x, y, j - 1);
            (p.0 + c.r, p.1 + c.g, p.2 + c.b)
        } else {
            p
        }
    }
}

/// What one multisampled visit does to a pixel holding `(oldc, oldd)`:
/// with no subsample covered the pixel is untouched; with all four
/// covered the pixel is recomputed at its center exactly as in the
/// single-sample path; with partial coverage the covered subsamples'
/// depths and colors are averaged, and the averages are written only if
/// the mean depth passes the max-wins test.
pub open spec fn msaa_pixel_spec<T: ShaderPayload>(
    t: ScreenTriangle,
    shader: T,
    model: Model,
    oldc: u32,
    oldd: i64,
    x: int,
    y: int,
) -> (u32, i64) {
    let h = hit_count(t, x, y, 4);
    if h == 0 {
        (oldc, oldd)
    } else if h == 4 {
        plain_pixel_spec(t, shader, model, oldc, oldd, x * (SUB as int), y * (SUB as int))
    } else {
        let db = dep_sum(t, x, y, 4) / h;
        if oldd > db {
            (oldc, oldd)
        } else {
            let cs = col_sum(t, shader, model, x, y, 4);
            (
                pack_rgb(
                    Rgb { r: (cs.0 / h) as u8, g: (cs.1 / h) as u8, b: (cs.2 / h) as u8 },
                ) as u32,
                db as i64,
            )
        }
    }
}

/// The first pixel column the triangle's bounding box reaches (clamped
/// below at zero, as the scan never leaves the buffer).
pub open spec fn raster_x_lo(t: ScreenTriangle) -> int {
    max2(0, pixel_ceil(bbox_min_x(t)))
}

/// One past the last pixel column the scan visits.
pub open spec fn raster_x_hi(t: ScreenTriangle, w: int) -> int {
    min2(w, max2(0, pixel_ceil(bbox_max_x(t))))
}

pub open spec fn raster_y_lo(t: ScreenTriangle) -> int {
    max2(0, pixel_ceil(bbox_min_y(t)))
}

pub open spec fn raster_y_hi(t: ScreenTriangle, h: int) -> int {
    min2(h, max2(0, pixel_ceil(bbox_max_y(t))))
}

impl Delusion {
    /// Whether the scan of this triangle visits pixel `(x, y)`: its
    /// bounding box, intersected with the buffer bounds.
    pub open spec fn in_raster_range(self, t: ScreenTriangle, x: int, y: int) -> bool {
        &&& raster_x_lo(t) <= x < raster_x_hi(t, self.w_spec())
        &&& raster_y_lo(t) <= y < raster_y_hi(t, self.h_spec())
    }

    /// The contents of pixel `(x, y)` after rasterizing one triangle
    /// over this state: pixels the scan does not visit keep their
    /// contents; visited ones take the single-sample or multisampled
    /// outcome.
    pub open spec fn pixel_result<T: ShaderPayload>(
        self,
        t: ScreenTriangle,
        shader: T,
        model: Model,
        x: int,
        y: int,
    ) -> (u32, i64) {
        let oldc = self.fb()[self.fb_index(x, y)];
        let oldd = self.db()[self.db_index(x, y)];
        if self.in_raster_range(t, x, y) {
            if self.msaa() == MsaaOptions::Disable {
                plain_pixel_spec(t, shader, model, oldc, oldd, x * (SUB as int), y * (SUB as int))
            } else {
                msaa_pixel_spec(t, shader, model, oldc, oldd, x, y)
            }
        } else {
            (oldc, oldd)
        }
    }

    /// Visits pixel `(x, y)` with one sample at the pixel center and
    /// writes color and depth if the sample is accepted.
    fn raster_pixel_plain<T: ShaderPayload>(
        &mut self,
        t: &ScreenTriangle,
        shader: &T,
        model: &Model,
        x: usize,
        y: usize,
    )
        requires
            old(self).wf(),
            t.wf(),
            shader.inv(),
            shader.ready(),
            model.wf(),
            x < old(self).w_spec(),
            y < old(self).h_spec(),
        ensures
            final(self).wf(),
            final(self).w_spec() == old(self).w_spec(),
            final(self).h_spec() == old(self).h_spec(),
            final(self).msaa() == old(self).msaa(),
            final(self).fb().len() == old(self).fb().len(),
            final(self).db().len() == old(self).db().len(),
            ({
                let r = plain_pixel_spec(
                    *t,
                    *shader,
                    *model,
                    old(self).fb()[old(self).fb_index(x as int, y as int)],
                    old(self).db()[old(self).db_index(x as int, y as int)],
                    x as int * (SUB as int),
                    y as int * (SUB as int),
                );
                &&& final(self).fb()[old(self).fb_index(x as int, y as int)] == r.0
                &&& final(self).db()[old(self).db_index(x as int, y as int)] == r.1
            }),
            forall|i: int|
                0 <= i < old(self).fb().len() && i != old(self).fb_index(x as int, y as int)
                    ==> final(self).fb()[i] == old(self).fb()[i],
            forall|i: int|
                0 <= i < old(self).db().len() && i != old(self).db_index(x as int, y as int)
                    ==> final(self).db()[i] == old(self).db()[i],
    {
        proof {
            lemma_grid_index(x as int, y as int, self.w_spec(), self.h_spec());
            lemma_grid_index(x as int, self.h_spec() - 1 - y, self.w_spec(), self.h_spec());
        }
        let sx = (x as i64) * SUB;
        let sy = (y as i64) * SUB;
        let wts = barycentric(t, sx, sy);
        if interior(&wts) {
            let dep = depth_from_weights(t, &wts);
            let stored = self.get_depth(x, y);
            if stored <= dep {
                self.set_depth(x, y, dep);
                let c = shader.fragment(&wts, model);
                self.set_color(x, y, &c);
            }
        }
    }

    /// Visits pixel `(x, y)` with the four rotated subsamples and
    /// resolves coverage: skip, full-coverage center resample, or the
    /// partial-coverage average.
    fn raster_pixel_msaa<T: ShaderPayload>(
        &mut self,
        t: &ScreenTriangle,
        shader: &T,
        model: &Model,
        x: usize,
        y: usize,
    )
        requires
            old(self).wf(),
            t.wf(),
            shader.inv(),
            shader.ready(),
            model.wf(),
            x < old(self).w_spec(),
            y < old(self).h_spec(),
        ensures
            final(self).wf(),
            final(self).w_spec() == old(self).w_spec(),
            final(self).h_spec() == old(self).h_spec(),
            final(self).msaa() == old(self).msaa(),
            final(self).fb().len() == old(self).fb().len(),
            final(self).db().len() == old(self).db().len(),
            ({
                let r = msaa_pixel_spec(
                    *t,
                    *shader,
                    *model,
                    old(self).fb()[old(self).fb_index(x as int, y as int)],
                    old(self).db()[old(self).db_index(x as int, y as int)],
                    x as int,
                    y as int,
                );
                &&& final(self).fb()[old(self).fb_index(x as int, y as int)] == r.0
                &&& final(self).db()[old(self).db_index(x as int, y as int)] == r.1
            }),
            forall|i: int|
                0 <= i < old(self).fb().len() && i != old(self).fb_index(x as int, y as int)
                    ==> final(self).fb()[i] == old(self).fb()[i],
            forall|i: int|
                0 <= i < old(self).db().len() && i != old(self).db_index(x as int, y as int)
                    ==> final(self).db()[i] == old(self).db()[i],
    {
        proof {
            lemma_grid_index(x as int, y as int, self.w_spec(), self.h_spec());
            lemma_grid_index(x as int, self.h_spec() - 1 - y, self.w_spec(), self.h_spec());
        }
        let ghost tg = *t;
        let ghost sg = *shader;
        let ghost mg = *model;
        let mut tensor = MsaaTensor::new();
        let mut hit: usize = 0;
        let mut idx: usize = 0;
        while idx < MSAA_LEVEL
            invariant
                t.wf(),
                shader.inv(),
                shader.ready(),
                model.wf(),
                tg == *t,
                sg == *shader,
                mg == *model,
                x <= 4096,
                y <= 4096,
                idx <= 4,
                hit <= idx,
                hit == hit_count(tg, x as int, y as int, idx as int),
                forall|k: int|
                    0 <= k < idx ==> tensor.mask_at(k) == msaa_covered(tg, x as int, y as int, k),
                forall|k: int|
                    0 <= k < idx && msaa_covered(tg, x as int, y as int, k) ==> tensor.dept_at(k)
                        == msaa_dep(tg, x as int, y as int, k) && 0 <= tensor.dept_at(k)
                        <= DEPTH_MAX,
                forall|k: int|
                    0 <= k < idx && msaa_covered(tg, x as int, y as int, k) ==> tensor.colo_at(k)
                        == msaa_col(tg, sg, mg, x as int, y as int, k),
            decreases 4 - idx,
        {
            let off = calc_conv(idx);
            let px = (x as i64) * SUB + off.0;
            let py = (y as i64) * SUB + off.1;
            let ws = barycentric(t, px, py);
            if interior(&ws) {
                hit = hit + 1;
                let dep = depth_from_weights(t, &ws);
                let c = shader.fragment(&ws, model);
                tensor.set_mask(idx, true);
                tensor.set_dept(idx, dep);
                tensor.set_colo(idx, &c);
            } else {
                tensor.set_mask(idx, false);
            }
            idx = idx + 1;
        }
        if hit == 0 {
            return ;
        }
        if hit == 4 {
            proof {
                assert(hit_count(tg, x as int, y as int, 4) == 4);
            }
            self.raster_pixel_plain(t, shader, model, x, y);
            return ;
        }
        let mut dsum: i64 = 0;
        let mut csr: u32 = 0;
        let mut csg: u32 = 0;
        let mut csb: u32 = 0;
        let mut j: usize = 0;
        while j < MSAA_LEVEL
            invariant
                j <= 4,
                1 <= hit <= 3,
                hit == hit_count(tg, x as int, y as int, 4),
                x <= 4096,
                y <= 4096,
                forall|k: int|
                    0 <= k < 4 ==> tensor.mask_at(k) == msaa_covered(tg, x as int, y as int, k),
                forall|k: int|
                    0 <= k < 4 && msaa_covered(tg, x as int, y as int, k) ==> tensor.dept_at(k)
                        == msaa_dep(tg, x as int, y as int, k) && 0 <= tensor.dept_at(k)
                        <= DEPTH_MAX,
                forall|k: int|
                    0 <= k < 4 && msaa_covered(tg, x as int, y as int, k) ==> tensor.colo_at(k)
                        == msaa_col(tg, sg, mg, x as int, y as int, k),
                dsum == dep_sum(tg, x as int, y as int, j as int),
                0 <= dsum <= hit_count(tg, x as int, y as int, j as int) * (DEPTH_MAX as int),
                hit_count(tg, x as int, y as int, j as int) <= 4,
                (csr as int, csg as int, csb as int) == col_sum(
                    tg,
                    sg,
                    mg,
                    x as int,
                    y as int,
                    j as int,
                ),
                csr <= 255 * hit_count(tg, x as int, y as int, j as int),
                csg <= 255 * hit_count(tg, x as int, y as int, j as int),
                csb <= 255 * hit_count(tg, x as int, y as int, j as int),
            decreases 4 - j,
        {
            let ghost hcj = hit_count(tg, x as int, y as int, j as int);
            proof {
                assert(hcj * (DEPTH_MAX as int) <= 4 * (DEPTH_MAX as int)) by (nonlinear_arith)
                    requires
                        hcj <= 4,
                        0 <= hcj || true,
                        DEPTH_MAX == 16711680i64;
                assert((hcj + 1) * (DEPTH_MAX as int) == hcj * (DEPTH_MAX as int) + (
                DEPTH_MAX as int)) by (nonlinear_arith);
                assert(255 * (hcj + 1) == 255 * hcj + 255);
                assert(hit_count(tg, x as int, y as int, (j + 1) as int) <= 4) by {
                    lemma_hit_count_le(tg, x as int, y as int, (j + 1) as int);
                }
            }
            if tensor.mask(j) {
                let dv = tensor.dept(j);
                dsum = dsum + dv;
                let cv = tensor.colo(j);
                csr = csr + cv.r as u32;
                csg = csg + cv.g as u32;
                csb = csb + cv.b as u32;
            }
            j = j + 1;
        }
        let ghost hc = hit_count(tg, x as int, y as int, 4);
        proof {
            assert(dsum <= (DEPTH_MAX as int) * (hit as int)) by (nonlinear_arith)
                requires
                    dsum <= hc * (DEPTH_MAX as int),
                    hc == hit as int,
                    1 <= hit <= 3,
                    DEPTH_MAX == 16711680i64;
        }
        let dblend = ((dsum as u64) / (hit as u64)) as i64;
        proof {
            lemma_fundamental_div_mod_converse(
                (DEPTH_MAX as int) * (hit as int),
                hit as int,
                DEPTH_MAX as int,
                0,
            );
            lemma_div_is_ordered(dsum as int, (DEPTH_MAX as int) * (hit as int), hit as int);
            lemma_div_pos_is_pos(dsum as int, hit as int);
        }
        let stored = self.get_depth(x, y);
        if stored > dblend {
            return ;
        }
        self.set_depth(x, y, dblend);
        proof {
            assert(csr as int <= 255 * (hit as int));
            lemma_fundamental_div_mod_converse(255 * (hit as int), hit as int, 255, 0);
            lemma_div_is_ordered(csr as int, 255 * (hit as int), hit as int);
            lemma_div_is_ordered(csg as int, 255 * (hit as int), hit as int);
            lemma_div_is_ordered(csb as int, 255 * (hit as int), hit as int);
        }
        let c = Rgb {
            r: (csr / (hit as u32)) as u8,
            g: (csg / (hit as u32)) as u8,
            b: (csb / (hit as u32)) as u8,
        };
        self.set_color(x, y, &c);
    }
}

impl Delusion {
    /// Scan-converts one screen-space triangle: walks the pixels of its
    /// bounding box intersected with the buffer bounds and visits each
    /// one with the single-sample or multisampled rule, depending on the
    /// multisampling switch.  Every pixel of the buffer ends up exactly
    /// as `pixel_result` states over the starting buffers; in particular
    /// a triangle whose box misses the buffer writes nothing.
    #[verifier::rlimit(100)]
    #[verifier::spinoff_prover]
    pub fn rasterize_tri<T: ShaderPayload>(
        &mut self,
        pts: &ScreenTriangle,
        shader: &T,
        model: &Model,
    )
        requires
            old(self).wf(),
            pts.wf(),
            shader.inv(),
            shader.ready(),
            model.wf(),
        ensures
            final(self).wf(),
            final(self).w_spec() == old(self).w_spec(),
            final(self).h_spec() == old(self).h_spec(),
            final(self).msaa() == old(self).msaa(),
            final(self).fb().len() == old(self).fb().len(),
            final(self).db().len() == old(self).db().len(),
            forall|x: int, y: int|
                #![trigger old(self).fb_index(x, y)]
                0 <= x < old(self).w_spec() && 0 <= y < old(self).h_spec() ==> {
                    let r = old(self).pixel_result(*pts, *shader, *model, x, y);
                    final(self).fb()[old(self).fb_index(x, y)] == r.0 && final(self).db()[old(
                        self,
                    ).db_index(x, y)] == r.1
                },
    {
        let ghost old0 = *self;
        let ghost tg = *pts;
        let ghost sg = *shader;
        let ghost mg = *model;
        let bb = bounding_box(pts);
        let xlo_r = pixel_ceil_of(bb.0);
        let ylo_r = pixel_ceil_of(bb.1);
        let xhi_r = pixel_ceil_of(bb.2);
        let yhi_r = pixel_ceil_of(bb.3);
        let xlo: usize = if xlo_r < 0 { 0 } else { xlo_r as usize };
        let ylo: usize = if ylo_r < 0 { 0 } else { ylo_r as usize };
        let xhi0: usize = if xhi_r < 0 { 0 } else { xhi_r as usize };
        let yhi0: usize = if yhi_r < 0 { 0 } else { yhi_r as usize };
        let xhi: usize = if xhi0 > self.width { self.width } else { xhi0 };
        let yhi: usize = if yhi0 > self.height { self.height } else { yhi0 };
        proof {
            assert(xlo as int == raster_x_lo(tg));
            assert(xhi as int == raster_x_hi(tg, old0.w_spec()));
            assert(ylo as int == raster_y_lo(tg));
            assert(yhi as int == raster_y_hi(tg, old0.h_spec()));
        }
        let mut x = xlo;
        while x < xhi
            invariant
                old0.wf(),
                tg.wf(),
                sg.inv(),
                sg.ready(),
                mg.wf(),
                tg == *pts,
                sg == *shader,
                mg == *model,
                self.wf(),
                self.w_spec() == old0.w_spec(),
                self.h_spec() == old0.h_spec(),
                self.msaa() == old0.msaa(),
                self.fb().len() == old0.fb().len(),
                self.db().len() == old0.db().len(),
                xlo as int == raster_x_lo(tg),
                xhi as int == raster_x_hi(tg, old0.w_spec()),
                ylo as int == raster_y_lo(tg),
                yhi as int == raster_y_hi(tg, old0.h_spec()),
                xhi <= old0.w_spec(),
                yhi <= old0.h_spec(),
                xlo <= x,
                x <= xhi || x == xlo,
                forall|xi: int, yi: int|
                    #![trigger old0.fb_index(xi, yi)]
                    0 <= xi < old0.w_spec() && 0 <= yi < old0.h_spec() ==> {
                        let r = old0.pixel_result(tg, sg, mg, xi, yi);
                        if old0.in_raster_range(tg, xi, yi) && xi < x {
                            self.fb()[old0.fb_index(xi, yi)] == r.0 && self.db()[old0.db_index(
                                xi,
                                yi,
                            )] == r.1
                        } else {
                            self.fb()[old0.fb_index(xi, yi)] == old0.fb()[old0.fb_index(xi, yi)]
                                && self.db()[old0.db_index(xi, yi)] == old0.db()[old0.db_index(
                                xi,
                                yi,
                            )]
                        }
                    },
            decreases xhi - x,
        {
            let mut y = ylo;
            while y < yhi
                invariant
                    old0.wf(),
                    tg.wf(),
                    sg.inv(),
                    sg.ready(),
                    mg.wf(),
                    tg == *pts,
                    sg == *shader,
                    mg == *model,
                    self.wf(),
                    self.w_spec() == old0.w_spec(),
                    self.h_spec() == old0.h_spec(),
                    self.msaa() == old0.msaa(),
                    self.fb().len() == old0.fb().len(),
                    self.db().len() == old0.db().len(),
                    xlo as int == raster_x_lo(tg),
                    xhi as int == raster_x_hi(tg, old0.w_spec()),
                    ylo as int == raster_y_lo(tg),
                    yhi as int == raster_y_hi(tg, old0.h_spec()),
                    xhi <= old0.w_spec(),
                    yhi <= old0.h_spec(),
                    xlo <= x < xhi,
                    ylo <= y,
                    y <= yhi || y == ylo,
                    forall|xi: int, yi: int|
                        #![trigger old0.fb_index(xi, yi)]
                        0 <= xi < old0.w_spec() && 0 <= yi < old0.h_spec() ==> {
                            let r = old0.pixel_result(tg, sg, mg, xi, yi);
                            if old0.in_raster_range(tg, xi, yi) && (xi < x || (xi == x && yi
                                < y)) {
                                self.fb()[old0.fb_index(xi, yi)] == r.0 && self.db()[old0.db_index(
                                    xi,
                                    yi,
                                )] == r.1
                            } else {
                                self.fb()[old0.fb_index(xi, yi)] == old0.fb()[old0.fb_index(
                                    xi,
                                    yi,
                                )] && self.db()[old0.db_index(xi, yi)] == old0.db()[old0.db_index(
                                    xi,
                                    yi,
                                )]
                            }
                        },
                decreases yhi - y,
            {
                let ghost pre = *self;
                proof {
                    assert(old0.in_raster_range(tg, x as int, y as int));
                    assert(self.fb()[old0.fb_index(x as int, y as int)] == old0.fb()[old0.fb_index(
                        x as int,
                        y as int,
                    )]);
                    assert(self.db()[old0.db_index(x as int, y as int)] == old0.db()[old0.db_index(
                        x as int,
                        y as int,
                    )]);
                }
                let use_plain = match self.msaa_status {
                    MsaaOptions::Disable => true,
                    MsaaOptions::X4 => false,
                };
                if use_plain {
                    self.raster_pixel_plain(pts, shader, model, x, y);
                } else {
                    self.raster_pixel_msaa(pts, shader, model, x, y);
                }
                let ghost y_prev = y as int;
                y = y + 1;
                proof {
                    let w = old0.w_spec();
                    let h = old0.h_spec();
                    assert forall|xi: int, yi: int|
                        #![trigger old0.fb_index(xi, yi)]
                        0 <= xi < w && 0 <= yi < h && !(xi == x as int && yi
                            == y_prev) implies old0.fb_index(xi, yi) != old0.fb_index(
                        x as int,
                        y_prev,
                    ) && old0.db_index(xi, yi) != old0.db_index(x as int, y_prev) by {
                        if old0.fb_index(xi, yi) == old0.fb_index(x as int, y_prev) {
                            lemma_row_major_injective(w, xi, h - 1 - yi, x as int, h - 1 - y_prev);
                        }
                        if old0.db_index(xi, yi) == old0.db_index(x as int, y_prev) {
                            lemma_row_major_injective(w, xi, yi, x as int, y_prev);
                        }
                    }
                    assert forall|xi: int, yi: int|
                        #![trigger old0.fb_index(xi, yi)]
                        0 <= xi < w && 0 <= yi < h implies {
                        let r = old0.pixel_result(tg, sg, mg, xi, yi);
                        if old0.in_raster_range(tg, xi, yi) && (xi < x || (xi == x && yi < y)) {
                            self.fb()[old0.fb_index(xi, yi)] == r.0 && self.db()[old0.db_index(
                                xi,
                                yi,
                            )] == r.1
                        } else {
                            self.fb()[old0.fb_index(xi, yi)] == old0.fb()[old0.fb_index(xi, yi)]
                                && self.db()[old0.db_index(xi, yi)] == old0.db()[old0.db_index(
                                xi,
                                yi,
                            )]
                        }
                    } by {
                        lemma_grid_index(xi, yi, w, h);
                        lemma_grid_index(xi, h - 1 - yi, w, h);
                        if xi == x as int && yi == y_prev {
                            let oldc = old0.fb()[old0.fb_index(xi, yi)];
                            let oldd = old0.db()[old0.db_index(xi, yi)];
                            if use_plain {
                                assert(old0.msaa() == MsaaOptions::Disable);
                                assert(old0.pixel_result(tg, sg, mg, xi, yi)
                                    == plain_pixel_spec(
                                    tg,
                                    sg,
                                    mg,
                                    oldc,
                                    oldd,
                                    xi * (SUB as int),
                                    yi * (SUB as int),
                                ));
                                assert(pre.fb()[pre.fb_index(xi, yi)] == oldc);
                                assert(pre.db()[pre.db_index(xi, yi)] == oldd);
                            } else {
                                assert(old0.msaa() != MsaaOptions::Disable);
                                assert(old0.pixel_result(tg, sg, mg, xi, yi) == msaa_pixel_spec(
                                    tg,
                                    sg,
                                    mg,
                                    oldc,
                                    oldd,
                                    xi,
                                    yi,
                                ));
                                assert(pre.fb()[pre.fb_index(xi, yi)] == oldc);
                                assert(pre.db()[pre.db_index(xi, yi)] == oldd);
                            }
                            assert(self.fb()[old0.fb_index(xi, yi)] == old0.pixel_result(
                                tg,
                                sg,
                                mg,
                                xi,
                                yi,
                            ).0);
                            assert(self.db()[old0.db_index(xi, yi)] == old0.pixel_result(
                                tg,
                                sg,
                                mg,
                                xi,
                                yi,
                            ).1);
                        } else {
                            assert(old0.fb_index(xi, yi) != old0.fb_index(x as int, y_prev));
                            assert(old0.db_index(xi, yi) != old0.db_index(x as int, y_prev));
                            assert(self.fb()[old0.fb_index(xi, yi)] == pre.fb()[old0.fb_index(
                                xi,
                                yi,
                            )]);
                            assert(self.db()[old0.db_index(xi, yi)] == pre.db()[old0.db_index(
                                xi,
                                yi,
                            )]);
                        }
                    }
                }
            }
            let ghost x_prev = x as int;
            x = x + 1;
            proof {
                assert forall|xi: int, yi: int|
                    #![trigger old0.fb_index(xi, yi)]
                    0 <= xi < old0.w_spec() && 0 <= yi < old0.h_spec() implies {
                    let r = old0.pixel_result(tg, sg, mg, xi, yi);
                    if old0.in_raster_range(tg, xi, yi) && xi < x {
                        self.fb()[old0.fb_index(xi, yi)] == r.0 && self.db()[old0.db_index(
                            xi,
                            yi,
                        )] == r.1
                    } else {
                        self.fb()[old0.fb_index(xi, yi)] == old0.fb()[old0.fb_index(xi, yi)]
                            && self.db()[old0.db_index(xi, yi)] == old0.db()[old0.db_index(
                            xi,
                            yi,
                        )]
                    }
                } by {
                    let r = old0.pixel_result(tg, sg, mg, xi, yi);
                    if old0.in_raster_range(tg, xi, yi) && xi < x_prev {
                        assert(self.fb()[old0.fb_index(xi, yi)] == r.0);
                        assert(self.db()[old0.db_index(xi, yi)] == r.1);
                    } else if old0.in_raster_range(tg, xi, yi) && xi == x_prev {
                        assert(raster_y_lo(tg) <= yi < raster_y_hi(tg, old0.h_spec()));
                        assert(yi < y);
                        assert(self.fb()[old0.fb_index(xi, yi)] == r.0);
                        assert(self.db()[old0.db_index(xi, yi)] == r.1);
                    } else {
                        assert(!(old0.in_raster_range(tg, xi, yi) && xi < x));
                        assert(self.fb()[old0.fb_index(xi, yi)] == old0.fb()[old0.fb_index(
                            xi,
                            yi,
                        )]);
                        assert(self.db()[old0.db_index(xi, yi)] == old0.db()[old0.db_index(
                            xi,
                            yi,
                        )]);
                    }
                }
            }
        }
    }
}

/// A triangle whose bounding box, clamped to the buffer, is empty leaves
/// every pixel of both buffers exactly as it was: its scan makes no
/// buffer write at all.
pub proof fn lemma_offscreen_triangle_writes_nothing<T: ShaderPayload>(
    d: Delusion,
    t: ScreenTriangle,
    shader: T,
    model: Model,
    x: int,
    y: int,
)
    requires
        pixel_ceil(bbox_max_x(t)) <= 0 || pixel_ceil(bbox_min_x(t)) >= d.w_spec() || pixel_ceil(
            bbox_max_y(t),
        ) <= 0 || pixel_ceil(bbox_min_y(t)) >= d.h_spec(),
    ensures
        d.pixel_result(t, shader, model, x, y) == (
            d.fb()[d.fb_index(x, y)],
            d.db()[d.db_index(x, y)],
        ),
{
    assert(!d.in_raster_range(t, x, y));
}

/// The depth test is monotonic under the max-wins convention: once a
/// sample of depth `d1` lands in a pixel, a later sample of strictly
/// smaller depth leaves both the color and the depth alone, while a
/// later sample of depth at least `d1` overwrites both.
pub proof fn lemma_depth_test_monotonic<T: ShaderPayload>(
    t1: ScreenTriangle,
    t2: ScreenTriangle,
    s1: T,
    s2: T,
    model: Model,
    oldc: u32,
    oldd: i64,
    px: int,
    py: int,
)
    requires
        interior_at(t1, px, py),
        interior_at(t2, px, py),
        oldd <= depth_at(t1, px, py),
    ensures
        ({
            let first = plain_pixel_spec(t1, s1, model, oldc, oldd, px, py);
            let second = plain_pixel_spec(t2, s2, model, first.0, first.1, px, py);
            &&& first.1 == depth_at(t1, px, py)
            &&& depth_at(t2, px, py) < first.1 ==> second == first
            &&& depth_at(t2, px, py) >= first.1 ==> second == (
                pack_rgb(s2.frag_spec(weights_at(t2, px, py), model)) as u32,
                depth_at(t2, px, py) as i64,
            )
        }),
{
    lemma_depth_at_bounds(t1, px, py);
    lemma_depth_at_bounds(t2, px, py);
}

/// Full coverage collapses to the single-sample rule: when all four
/// subsamples of a pixel are covered, the multisampled visit equals the
/// plain visit at the pixel center exactly.
pub proof fn lemma_msaa_full_coverage_matches_plain<T: ShaderPayload>(
    t: ScreenTriangle,
    shader: T,
    model: Model,
    oldc: u32,
    oldd: i64,
    x: int,
    y: int,
)
    requires
        forall|j: int| 0 <= j < 4 ==> msaa_covered(t, x, y, j),
    ensures
        msaa_pixel_spec(t, shader, model, oldc, oldd, x, y) == plain_pixel_spec(
            t,
            shader,
            model,
            oldc,
            oldd,
            x * (SUB as int),
            y * (SUB as int),
        ),
{
    assert(hit_count(t, x, y, 4) == 4) by {
        assert(msaa_covered(t, x, y, 0) && msaa_covered(t, x, y, 1) && msaa_covered(t, x, y, 2)
            && msaa_covered(t, x, y, 3));
        assert(hit_count(t, x, y, 0) == 0);
        assert(hit_count(t, x, y, 1) == 1);
        assert(hit_count(t, x, y, 2) == 2);
        assert(hit_count(t, x, y, 3) == 3);
    }
}

/// Zero coverage leaves the pixel alone: when no subsample of a pixel is
/// covered, the multisampled visit changes neither its color nor its
/// depth.
pub proof fn lemma_msaa_zero_coverage_leaves_pixel<T: ShaderPayload>(
    t: ScreenTriangle,
    shader: T,
    model: Model,
    oldc: u32,
    oldd: i64,
    x: int,
    y: int,
)
    requires
        forall|j: int| 0 <= j < 4 ==> !msaa_covered(t, x, y, j),
    ensures
        msaa_pixel_spec(t, shader, model, oldc, oldd, x, y) == (oldc, oldd),
{
    assert(hit_count(t, x, y, 4) == 0) by {
        assert(!msaa_covered(t, x, y, 0) && !msaa_covered(t, x, y, 1) && !msaa_covered(t, x, y, 2)
            && !msaa_covered(t, x, y, 3));
        assert(hit_count(t, x, y, 0) == 0);
        assert(hit_count(t, x, y, 1) == 0);
        assert(hit_count(t, x, y, 2) == 0);
        assert(hit_count(t, x, y, 3) == 0);
    }
}

/// Partial coverage blends: with `k` of the four subsamples covered
/// (0 < k < 4), the multisampled visit averages the covered subsamples'
/// depths and colors channel by channel, and commits the averages if and
/// only if the mean depth passes the stored-depth test.
pub proof fn lemma_msaa_partial_coverage_blends<T: ShaderPayload>(
    t: ScreenTriangle,
    shader: T,
    model: Model,
    oldc: u32,
    oldd: i64,
    x: int,
    y: int,
)
    requires
        0 < hit_count(t, x, y, 4) < 4,
    ensures
        ({
            let k = hit_count(t, x, y, 4);
            let mean_depth = dep_sum(t, x, y, 4) / k;
            let cs = col_sum(t, shader, model, x, y, 4);
            &&& oldd > mean_depth ==> msaa_pixel_spec(t, shader, model, oldc, oldd, x, y) == (
                oldc,
                oldd,
            )
            &&& oldd <= mean_depth ==> msaa_pixel_spec(t, shader, model, oldc, oldd, x, y) == (
                pack_rgb(
                    Rgb { r: (cs.0 / k) as u8, g: (cs.1 / k) as u8, b: (cs.2 / k) as u8 },
                ) as u32,
                mean_depth as i64,
            )
        }),
{
}

/// At most `j` of the first `j` subsamples are covered.
pub proof fn lemma_hit_count_le(t: ScreenTriangle, x: int, y: int, j: int)
    requires
        0 <= j,
    ensures
        0 <= hit_count(t, x, y, j) <= j,
    decreases j,
{
    if j > 0 {
        lemma_hit_count_le(t, x, y, j - 1);
    }
}

} // verus!
