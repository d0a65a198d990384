//! The geometry-and-texture provider, modeled as plain data.
//!
//! Mesh loading and texture decoding live outside the core; the core sees
//! only this type: face index triples, texture coordinates and vertex
//! normals in fixed point, and decoded texel grids.  Sampling follows the
//! renderer's policy: a texture coordinate that lands outside the texel
//! grid yields a fixed fallback (a neutral blue for the diffuse map, the
//! zero vector for the normal map, exponent zero for the specular map)
//! rather than a fault.

use crate::graphics::Rgb;
use crate::transform::{
    div_floor, lemma_div_range, normalize_fx, normalize_fx_spec, vec3fx_of, Vec2Fx, Vec3Fx, FX,
    NORM_MAX, VAL_MAX,
};
use vstd::prelude::*;

verus! {

/// Largest texture side length the sampler accepts.
pub const TEX_MAX: usize = 65536;

/// A decoded texture: a row-major texel grid, row 0 at the top as the
/// decoder produced it (sampling flips the row).
#[derive(Clone, Debug)]
pub struct Texture {
    pub width: usize,
    pub height: usize,
    pub texels: Vec<Rgb>,
}

/// The texel column of a texture coordinate `u`: `floor(width * u / FX)`.
pub open spec fn tex_x(t: Texture, u: int) -> int {
    t.width * u / (FX as int)
}

/// The texel row, counted from the bottom, of a coordinate `v`.
pub open spec fn tex_yr(t: Texture, v: int) -> int {
    t.height * v / (FX as int)
}

/// Whether `(u, v)` lands on the texel grid at all.
pub open spec fn tex_hit(t: Texture, u: int, v: int) -> bool {
    0 <= tex_x(t, u) < t.width && 0 <= tex_yr(t, v) < t.height
}

/// The texel at column `x` and top-down row `y`.
pub open spec fn tex_at(t: Texture, x: int, y: int) -> Rgb {
    t.texels@[y * t.width + x]
}

/// The texel that `(u, v)` addresses when it hits the grid: column
/// `tex_x`, with the row flipped so `v == 0` is the bottom row.
pub open spec fn tex_sample(t: Texture, u: int, v: int) -> Rgb {
    tex_at(t, tex_x(t, u), t.height - 1 - tex_yr(t, v))
}

impl Texture {
    pub open spec fn wf(self) -> bool {
        &&& self.texels.len() == self.width * self.height
        &&& self.width <= TEX_MAX
        &&& self.height <= TEX_MAX
    }

    /// Builds a texture, rejecting a texel vector whose length does not
    /// match the dimensions and sides beyond `TEX_MAX`.
    pub fn new(width: usize, height: usize, texels: Vec<Rgb>) -> (t: Option<Texture>)
        ensures
            match t {
                Some(t) => {
                    &&& t.wf()
                    &&& t.width == width
                    &&& t.height == height
                    &&& t.texels@ == texels@
                },
                None => !(Texture { width, height, texels }).wf(),
            },
    {
        if width <= TEX_MAX && height <= TEX_MAX && width.checked_mul(height) == Some(
            texels.len(),
        ) {
            Some(Texture { width, height, texels })
        } else {
            None
        }
    }

    /// A single-texel texture, for untextured rendering and tests.
    pub fn solid(color: Rgb) -> (t: Texture)
        ensures
            t.wf(),
            t.width == 1,
            t.height == 1,
            t.texels@ =~= seq![color],
    {
        let mut texels: Vec<Rgb> = Vec::new();
        texels.push(color);
        Texture { width: 1, height: 1, texels }
    }

    /// Looks up the texel addressed by the fixed-point coordinates, or
    /// reports a miss for coordinates off the grid.
    pub fn sample(&self, u: i64, v: i64) -> (r: Option<Rgb>)
        requires
            self.wf(),
            -VAL_MAX - 1 <= u <= VAL_MAX + 1,
            -VAL_MAX - 1 <= v <= VAL_MAX + 1,
        ensures
            match r {
                Some(c) => tex_hit(*self, u as int, v as int) && c == tex_sample(
                    *self,
                    u as int,
                    v as int,
                ),
                None => !tex_hit(*self, u as int, v as int),
            },
    {
        proof {
            assert(-0x1000000010000 <= (self.width as int) * (u as int) <= 0x1000000010000
                && -0x1000000010000 <= (self.height as int) * (v as int) <= 0x1000000010000)
                by (nonlinear_arith)
                requires
                    0 <= self.width <= 0x10000,
                    0 <= self.height <= 0x10000,
                    -0x100000001 <= u <= 0x100000001,
                    -0x100000001 <= v <= 0x100000001;
        }
        let x128 = div_floor((self.width as i128) * (u as i128), FX as i128);
        let yr128 = div_floor((self.height as i128) * (v as i128), FX as i128);
        proof {
            lemma_div_range((self.width as int) * (u as int), 0x1000000010000, FX as int);
            lemma_div_range((self.height as int) * (v as int), 0x1000000010000, FX as int);
        }
        let x = x128 as i64;
        let yr = yr128 as i64;
        if 0 <= x && x < self.width as i64 && 0 <= yr && yr < self.height as i64 {
            let xi = x as usize;
            let yi = self.height - 1 - (yr as usize);
            proof {
                lemma_grid_index(xi as int, yi as int, self.width as int, self.height as int);
            }
            Some(self.texels[yi * self.width + xi])
        } else {
            None
        }
    }
}

/// A grid position `(x, y)` with `x < w`, `y < h` has a row-major index
/// inside the grid.
pub proof fn lemma_grid_index(x: int, y: int, w: int, h: int)
    requires
        0 <= x < w,
        0 <= y < h,
    ensures
        0 <= y * w + x < w * h,
{
    assert(0 <= y * w + x < w * h) by (nonlinear_arith)
        requires
            0 <= x < w,
            0 <= y < h;
}

/// A normal-map sample, unpacked from byte channels: each component is a
/// numerator over 255, so the stored byte `c` stands for
/// `c / 255 * 2 - 1 == (2c - 255) / 255`.
#[derive(Clone, Copy, Debug, PartialEq, Eq, Structural)]
pub struct UnpackedNormal {
    pub x: i32,
    pub y: i32,
    pub z: i32,
}

/// Unpacks one stored normal channel: `2c - 255`, a numerator over 255.
pub open spec fn unpack_channel_spec(c: u8) -> int {
    2 * c - 255
}

/// Packs a numerator over 255 back into a byte channel: `(n + 255) / 2`.
pub open spec fn pack_channel_spec(n: int) -> int {
    (n + 255) / 2
}

/// Unpacks one normal-map channel.
pub fn unpack_channel(c: u8) -> (n: i32)
    ensures
        n == unpack_channel_spec(c),
        -255 <= n <= 255,
{
    2 * (c as i32) - 255
}

/// Packs an unpacked normal component back into a byte channel.
pub fn pack_channel(n: i32) -> (c: u8)
    requires
        -255 <= n <= 255,
    ensures
        c == pack_channel_spec(n as int),
{
    (((n + 255) as u32) / 2) as u8
}

/// Unpacking a stored normal channel and packing it back recovers the
/// stored byte exactly.
pub proof fn lemma_normal_pack_round_trip(c: u8)
    ensures
        pack_channel_spec(unpack_channel_spec(c)) == c,
{
}

/// Converts an unpacked normal (numerators over 255) to `FX` fixed point.
pub fn normal_to_fx(n: &UnpackedNormal) -> (v: Vec3Fx)
    requires
        -255 <= n.x <= 255,
        -255 <= n.y <= 255,
        -255 <= n.z <= 255,
    ensures
        v.x == n.x * FX / 255,
        v.y == n.y * FX / 255,
        v.z == n.z * FX / 255,
        v.abs_within(FX as int),
{
    let x = div_floor((n.x as i128) * (FX as i128), 255);
    let y = div_floor((n.y as i128) * (FX as i128), 255);
    let z = div_floor((n.z as i128) * (FX as i128), 255);
    proof {
        lemma_div_range((n.x as int) * (FX as int), 255 * (FX as int), 255);
        lemma_div_range((n.y as int) * (FX as int), 255 * (FX as int), 255);
        lemma_div_range((n.z as int) * (FX as int), 255 * (FX as int), 255);
        assert(255 * (FX as int) / 255 == FX as int);
    }
    Vec3Fx { x: x as i64, y: y as i64, z: z as i64 }
}

/// The three index triples of one mesh face: for each of its three vertex
/// slots, the vertex, texture-coordinate and normal indices.
#[derive(Clone, Copy, Debug)]
pub struct FaceIdx {
    pub vert: [usize; 3],
    pub uv: [usize; 3],
    pub norm: [usize; 3],
}

/// Index validity of one face against table sizes.
pub open spec fn face_idx_wf(f: FaceIdx, nverts: int, nuvs: int, nnorms: int) -> bool {
    &&& forall|j: int| 0 <= j < 3 ==> f.vert@[j] < nverts
    &&& forall|j: int| 0 <= j < 3 ==> f.uv@[j] < nuvs
    &&& forall|j: int| 0 <= j < 3 ==> f.norm@[j] < nnorms
}

/// The geometry-and-texture provider: indexed faces over fixed-point
/// attribute tables, plus the three decoded texture maps.
#[derive(Clone, Debug)]
pub struct Model {
    pub nverts: usize,
    pub uvs: Vec<Vec2Fx>,
    pub normals: Vec<Vec3Fx>,
    pub faces: Vec<FaceIdx>,
    pub diffuse_map: Texture,
    pub normal_map: Texture,
    pub specular_map: Texture,
    pub diffuse_exists: bool,
    pub nm_exists: bool,
    pub spec_exists: bool,
}

/// The diffuse color of a texture coordinate: the addressed texel, or the
/// neutral-blue fallback off the grid.
pub open spec fn diffuse_spec(m: Model, uv: Vec2Fx) -> Rgb {
    if tex_hit(m.diffuse_map, uv.x as int, uv.y as int) {
        tex_sample(m.diffuse_map, uv.x as int, uv.y as int)
    } else {
        Rgb { r: 79, g: 147, b: 184 }
    }
}

/// The unpacked normal-map sample of a texture coordinate, or the zero
/// vector off the grid.
pub open spec fn normal_spec(m: Model, uv: Vec2Fx) -> (int, int, int) {
    if tex_hit(m.normal_map, uv.x as int, uv.y as int) {
        let c = tex_sample(m.normal_map, uv.x as int, uv.y as int);
        (unpack_channel_spec(c.r), unpack_channel_spec(c.g), unpack_channel_spec(c.b))
    } else {
        (0, 0, 0)
    }
}

/// The specular exponent of a texture coordinate: the red channel of the
/// addressed texel, or zero off the grid.
pub open spec fn specular_spec(m: Model, uv: Vec2Fx) -> int {
    if tex_hit(m.specular_map, uv.x as int, uv.y as int) {
        tex_sample(m.specular_map, uv.x as int, uv.y as int).r as int
    } else {
        0
    }
}

/// The texture coordinate of one vertex slot of one face.
pub open spec fn calc_uv_spec(m: Model, iface: int, ivert: int) -> Vec2Fx {
    m.uvs@[m.faces@[iface].uv@[ivert] as int]
}

/// The normalized vertex normal of one vertex slot of one face.
pub open spec fn calc_normal_spec(m: Model, iface: int, ivert: int) -> Vec3Fx {
    vec3fx_of(normalize_fx_spec(m.normals@[m.faces@[iface].norm@[ivert] as int]))
}

impl Model {
    /// Index validity of one face against the attribute tables.
    pub open spec fn face_wf(self, f: FaceIdx) -> bool {
        face_idx_wf(f, self.nverts as int, self.uvs.len() as int, self.normals.len() as int)
    }

    /// Well-formedness: valid face indices, bounded attributes, and
    /// well-formed texture maps.
    pub open spec fn wf(self) -> bool {
        &&& forall|i: int| 0 <= i < self.faces.len() ==> self.face_wf(#[trigger] self.faces@[i])
        &&& forall|i: int|
            0 <= i < self.uvs.len() ==> (-VAL_MAX <= #[trigger] self.uvs@[i].x <= VAL_MAX
                && -VAL_MAX <= self.uvs@[i].y <= VAL_MAX)
        &&& forall|i: int|
            0 <= i < self.normals.len() ==> (#[trigger] self.normals@[i]).abs_within(
                NORM_MAX as int,
            )
        &&& self.diffuse_map.wf()
        &&& self.normal_map.wf()
        &&& self.specular_map.wf()
    }

    /// Assembles a model, rejecting any face whose indices run off the
    /// attribute tables and any attribute outside the sampler's bounds:
    /// a malformed mesh must be refused up front, never read out of range.
    pub fn new(
        nverts: usize,
        uvs: Vec<Vec2Fx>,
        normals: Vec<Vec3Fx>,
        faces: Vec<FaceIdx>,
        diffuse_map: Texture,
        normal_map: Texture,
        specular_map: Texture,
        diffuse_exists: bool,
        nm_exists: bool,
        spec_exists: bool,
    ) -> (m: Option<Model>)
        ensures
            match m {
                Some(m) => {
                    &&& m.wf()
                    &&& m.nverts == nverts
                    &&& m.uvs@ == uvs@
                    &&& m.normals@ == normals@
                    &&& m.faces@ == faces@
                    &&& m.diffuse_map == diffuse_map
                    &&& m.normal_map == normal_map
                    &&& m.specular_map == specular_map
                    &&& m.diffuse_exists == diffuse_exists
                    &&& m.nm_exists == nm_exists
                    &&& m.spec_exists == spec_exists
                },
                None => !(Model {
                    nverts,
                    uvs,
                    normals,
                    faces,
                    diffuse_map,
                    normal_map,
                    specular_map,
                    diffuse_exists,
                    nm_exists,
                    spec_exists,
                }).wf(),
            },
    {
        if !(diffuse_map.width <= TEX_MAX && diffuse_map.height <= TEX_MAX
            && diffuse_map.width.checked_mul(diffuse_map.height)
                == Some(diffuse_map.texels.len())) {
            return None;
        }
        if !(normal_map.width <= TEX_MAX && normal_map.height <= TEX_MAX
            && normal_map.width.checked_mul(normal_map.height)
                == Some(normal_map.texels.len())) {
            return None;
        }
        if !(specular_map.width <= TEX_MAX && specular_map.height <= TEX_MAX
            && specular_map.width.checked_mul(specular_map.height)
                == Some(specular_map.texels.len())) {
            return None;
        }
        let mut i: usize = 0;
        while i < uvs.len()
            invariant
                i <= uvs.len(),
                forall|k: int|
                    0 <= k < i ==> (-VAL_MAX <= #[trigger] uvs@[k].x <= VAL_MAX && -VAL_MAX
                        <= uvs@[k].y <= VAL_MAX),
            decreases uvs.len() - i,
        {
            let p = uvs[i];
            if !(-VAL_MAX <= p.x && p.x <= VAL_MAX && -VAL_MAX <= p.y && p.y <= VAL_MAX) {
                proof {
                    let gm = Model {
                        nverts,
                        uvs,
                        normals,
                        faces,
                        diffuse_map,
                        normal_map,
                        specular_map,
                        diffuse_exists,
                        nm_exists,
                        spec_exists,
                    };
                    assert(gm.uvs@[i as int] == p);
                    assert(!gm.wf());
                }
                return None;
            }
            i = i + 1;
        }
        let mut i: usize = 0;
        while i < normals.len()
            invariant
                i <= normals.len(),
                forall|k: int|
                    0 <= k < i ==> (#[trigger] normals@[k]).abs_within(NORM_MAX as int),
            decreases normals.len() - i,
        {
            let p = normals[i];
            if !(-NORM_MAX <= p.x && p.x <= NORM_MAX && -NORM_MAX <= p.y && p.y <= NORM_MAX
                && -NORM_MAX <= p.z && p.z <= NORM_MAX) {
                proof {
                    let gm = Model {
                        nverts,
                        uvs,
                        normals,
                        faces,
                        diffuse_map,
                        normal_map,
                        specular_map,
                        diffuse_exists,
                        nm_exists,
                        spec_exists,
                    };
                    assert(gm.normals@[i as int] == p);
                    assert(!gm.wf());
                }
                return None;
            }
            i = i + 1;
        }
        let nuv = uvs.len();
        let nnorm = normals.len();
        let mut i: usize = 0;
        while i < faces.len()
            invariant
                i <= faces.len(),
                nuv == uvs.len(),
                nnorm == normals.len(),
                forall|k: int|
                    0 <= k < i ==> face_idx_wf(
                        #[trigger] faces@[k],
                        nverts as int,
                        nuv as int,
                        nnorm as int,
                    ),
            decreases faces.len() - i,
        {
            let f = faces[i];
            let mut j: usize = 0;
            while j < 3
                invariant
                    j <= 3,
                    i < faces.len(),
                    f == faces@[i as int],
                    nuv == uvs.len(),
                    nnorm == normals.len(),
                    forall|l: int|
                        0 <= l < j ==> (#[trigger] f.vert@[l] < nverts && f.uv@[l] < nuv
                            && f.norm@[l] < nnorm),
                decreases 3 - j,
            {
                if !(f.vert[j] < nverts && f.uv[j] < nuv && f.norm[j] < nnorm) {
                    proof {
                        let gm = Model {
                        nverts,
                        uvs,
                        normals,
                        faces,
                        diffuse_map,
                        normal_map,
                        specular_map,
                        diffuse_exists,
                        nm_exists,
                        spec_exists,
                    };
                        assert(gm.faces@[i as int].vert@[j as int] == f.vert@[j as int]);
                        assert(gm.faces@[i as int].uv@[j as int] == f.uv@[j as int]);
                        assert(gm.faces@[i as int].norm@[j as int] == f.norm@[j as int]);
                        assert(!gm.face_wf(gm.faces@[i as int]));
                        assert(!gm.wf());
                    }
                    return None;
                }
                j = j + 1;
            }
            proof {
                assert forall|l: int| 0 <= l < 3 implies faces@[i as int].vert@[l] < nverts
                    && faces@[i as int].uv@[l] < nuv && faces@[i as int].norm@[l] < nnorm by {
                    assert(f.vert@[l] < nverts && f.uv@[l] < nuv && f.norm@[l] < nnorm);
                }
                assert(face_idx_wf(faces@[i as int], nverts as int, nuv as int, nnorm as int));
            }
            i = i + 1;
        }
        Some(Model {
            nverts,
            uvs,
            normals,
            faces,
            diffuse_map,
            normal_map,
            specular_map,
            diffuse_exists,
            nm_exists,
            spec_exists,
        })
    }

    /// The number of mesh faces.
    pub fn nfaces(&self) -> (n: usize)
        ensures
            n == self.faces.len(),
    {
        self.faces.len()
    }

    /// The number of mesh vertices.
    pub fn nverts(&self) -> (n: usize)
        ensures
            n == self.nverts,
    {
        self.nverts
    }

    /// The number of vertex normals.
    pub fn nnormals(&self) -> (n: usize)
        ensures
            n == self.normals.len(),
    {
        self.normals.len()
    }

    /// The number of texture coordinates.
    pub fn nuvs(&self) -> (n: usize)
        ensures
            n == self.uvs.len(),
    {
        self.uvs.len()
    }

    /// Which of the diffuse, normal and specular maps were present.
    pub fn texture_status(&self) -> (s: [bool; 3])
        ensures
            s@[0] == self.diffuse_exists,
            s@[1] == self.nm_exists,
            s@[2] == self.spec_exists,
    {
        [self.diffuse_exists, self.nm_exists, self.spec_exists]
    }

    /// The vertex indices of one face.
    pub fn face(&self, idx: usize) -> (f: [usize; 3])
        requires
            self.wf(),
            idx < self.faces.len(),
        ensures
            forall|j: int| 0 <= j < 3 ==> f@[j] == self.faces@[idx as int].vert@[j],
    {
        let fc = &self.faces[idx];
        [fc.vert[0], fc.vert[1], fc.vert[2]]
    }

    /// The texture coordinate of one vertex slot of one face.
    pub fn calc_uv(&self, iface: usize, ivert: usize) -> (uv: Vec2Fx)
        requires
            self.wf(),
            iface < self.faces.len(),
            ivert < 3,
        ensures
            uv == calc_uv_spec(*self, iface as int, ivert as int),
            -VAL_MAX <= uv.x <= VAL_MAX,
            -VAL_MAX <= uv.y <= VAL_MAX,
    {
        let f = &self.faces[iface];
        self.uvs[f.uv[ivert]]
    }

    /// The unit normal of one vertex slot of one face: the stored normal,
    /// normalized to fixed point on every call.
    pub fn calc_normal(&self, iface: usize, ivert: usize) -> (n: Vec3Fx)
        requires
            self.wf(),
            iface < self.faces.len(),
            ivert < 3,
        ensures
            n == calc_normal_spec(*self, iface as int, ivert as int),
            n.abs_within(FX as int),
    {
        let f = &self.faces[iface];
        let stored = &self.normals[f.norm[ivert]];
        let n = normalize_fx(stored);
        proof {
            assert(n == calc_normal_spec(*self, iface as int, ivert as int));
        }
        n
    }

    /// Samples the diffuse map; off-grid coordinates yield the neutral
    /// blue fallback.
    pub fn diffuse(&self, uv: &Vec2Fx) -> (c: Rgb)
        requires
            self.wf(),
            -VAL_MAX - 1 <= uv.x <= VAL_MAX + 1,
            -VAL_MAX - 1 <= uv.y <= VAL_MAX + 1,
        ensures
            c == diffuse_spec(*self, *uv),
    {
        match self.diffuse_map.sample(uv.x, uv.y) {
            Some(c) => c,
            None => Rgb { r: 79, g: 147, b: 184 },
        }
    }

    /// Samples and unpacks the normal map; off-grid coordinates yield the
    /// zero vector.
    pub fn normal(&self, uv: &Vec2Fx) -> (n: UnpackedNormal)
        requires
            self.wf(),
            -VAL_MAX - 1 <= uv.x <= VAL_MAX + 1,
            -VAL_MAX - 1 <= uv.y <= VAL_MAX + 1,
        ensures
            (n.x as int, n.y as int, n.z as int) == normal_spec(*self, *uv),
            -255 <= n.x <= 255,
            -255 <= n.y <= 255,
            -255 <= n.z <= 255,
    {
        match self.normal_map.sample(uv.x, uv.y) {
            Some(c) => UnpackedNormal {
                x: unpack_channel(c.r),
                y: unpack_channel(c.g),
                z: unpack_channel(c.b),
            },
            None => UnpackedNormal { x: 0, y: 0, z: 0 },
        }
    }

    /// Samples the specular-exponent map; off-grid coordinates yield
    /// exponent zero.
    pub fn specular(&self, uv: &Vec2Fx) -> (e: u8)
        requires
            self.wf(),
            -VAL_MAX - 1 <= uv.x <= VAL_MAX + 1,
            -VAL_MAX - 1 <= uv.y <= VAL_MAX + 1,
        ensures
            e == specular_spec(*self, *uv),
    {
        match self.specular_map.sample(uv.x, uv.y) {
            Some(c) => c.r,
            None => 0,
        }
    }
}

} // verus!
