//! A plain per-triangle record: vertex positions, per-vertex colors,
//! texture coordinates and normals, filled by setters and read back by
//! per-vertex accessors.  Positions come in two forms, fixed point and
//! plain integer, matching the two scan-conversion styles the renderer
//! has used.

use crate::graphics::Rgb;
use crate::transform::Vec3Fx;
use vstd::prelude::*;

verus! {

/// An integer 3-vector (whole screen coordinates).
#[derive(Clone, Copy, Debug, PartialEq, Eq, Structural)]
pub struct Vec3I {
    pub x: i32,
    pub y: i32,
    pub z: i32,
}

/// An integer 2-vector (whole texel coordinates).
#[derive(Clone, Copy, Debug, PartialEq, Eq, Structural)]
pub struct Vec2I {
    pub x: i32,
    pub y: i32,
}

/// One triangle's per-vertex data.
#[derive(Clone, Debug)]
pub struct Triangle {
    v: [Vec3Fx; 3],
    v_i32: [Vec3I; 3],
    color: [Rgb; 3],
    tex_coords: [Vec2I; 3],
    normals: [Vec3Fx; 3],
}

impl Triangle {
    pub closed spec fn v_at(self, i: int) -> Vec3Fx {
        self.v@[i]
    }

    pub closed spec fn v_i32_at(self, i: int) -> Vec3I {
        self.v_i32@[i]
    }

    pub closed spec fn tex_at(self, i: int) -> Vec2I {
        self.tex_coords@[i]
    }

    pub closed spec fn normal_at(self, i: int) -> Vec3Fx {
        self.normals@[i]
    }

    /// An all-zero triangle record.
    pub fn new() -> (t: Triangle)
        ensures
            forall|i: int| 0 <= i < 3 ==> t.v_at(i) == (Vec3Fx { x: 0, y: 0, z: 0 }),
            forall|i: int| 0 <= i < 3 ==> t.v_i32_at(i) == (Vec3I { x: 0, y: 0, z: 0 }),
            forall|i: int| 0 <= i < 3 ==> t.tex_at(i) == (Vec2I { x: 0, y: 0 }),
            forall|i: int| 0 <= i < 3 ==> t.normal_at(i) == (Vec3Fx { x: 0, y: 0, z: 0 }),
    {
        let zf = Vec3Fx { x: 0, y: 0, z: 0 };
        let zi = Vec3I { x: 0, y: 0, z: 0 };
        let zt = Vec2I { x: 0, y: 0 };
        let zc = Rgb { r: 0, g: 0, b: 0 };
        Triangle {
            v: [zf, zf, zf],
            v_i32: [zi, zi, zi],
            color: [zc, zc, zc],
            tex_coords: [zt, zt, zt],
            normals: [zf, zf, zf],
        }
    }

    /// Replaces the three fixed-point vertex positions.
    pub fn set_vertices(&mut self, vertices: [Vec3Fx; 3])
        ensures
            forall|i: int| 0 <= i < 3 ==> final(self).v_at(i) == vertices@[i],
            forall|i: int| 0 <= i < 3 ==> final(self).v_i32_at(i) == old(self).v_i32_at(i),
            forall|i: int| 0 <= i < 3 ==> final(self).tex_at(i) == old(self).tex_at(i),
            forall|i: int| 0 <= i < 3 ==> final(self).normal_at(i) == old(self).normal_at(i),
    {
        self.v = vertices;
    }

    /// Replaces the three whole-integer vertex positions.
    pub fn set_vertices_i32(&mut self, vertices: [Vec3I; 3])
        ensures
            forall|i: int| 0 <= i < 3 ==> final(self).v_i32_at(i) == vertices@[i],
            forall|i: int| 0 <= i < 3 ==> final(self).v_at(i) == old(self).v_at(i),
            forall|i: int| 0 <= i < 3 ==> final(self).tex_at(i) == old(self).tex_at(i),
            forall|i: int| 0 <= i < 3 ==> final(self).normal_at(i) == old(self).normal_at(i),
    {
        self.v_i32 = vertices;
    }

    /// Replaces the three texel coordinates.
    pub fn set_tex_coords(&mut self, tex_coords: [Vec2I; 3])
        ensures
            forall|i: int| 0 <= i < 3 ==> final(self).tex_at(i) == tex_coords@[i],
            forall|i: int| 0 <= i < 3 ==> final(self).v_at(i) == old(self).v_at(i),
            forall|i: int| 0 <= i < 3 ==> final(self).v_i32_at(i) == old(self).v_i32_at(i),
            forall|i: int| 0 <= i < 3 ==> final(self).normal_at(i) == old(self).normal_at(i),
    {
        self.tex_coords = tex_coords;
    }

    /// Replaces the three vertex normals.
    pub fn set_normals(&mut self, normals: [Vec3Fx; 3])
        ensures
            forall|i: int| 0 <= i < 3 ==> final(self).normal_at(i) == normals@[i],
            forall|i: int| 0 <= i < 3 ==> final(self).v_at(i) == old(self).v_at(i),
            forall|i: int| 0 <= i < 3 ==> final(self).v_i32_at(i) == old(self).v_i32_at(i),
            forall|i: int| 0 <= i < 3 ==> final(self).tex_at(i) == old(self).tex_at(i),
    {
        self.normals = normals;
    }

    /// The first fixed-point vertex.
    #[inline]
    pub fn a(&self) -> (r: Vec3Fx)
        ensures
            r == self.v_at(0),
    {
        self.v[0]
    }

    /// The second fixed-point vertex.
    #[inline]
    pub fn b(&self) -> (r: Vec3Fx)
        ensures
            r == self.v_at(1),
    {
        self.v[1]
    }

    /// The third fixed-point vertex.
    #[inline]
    pub fn c(&self) -> (r: Vec3Fx)
        ensures
            r == self.v_at(2),
    {
        self.v[2]
    }

    /// The first integer vertex.
    #[inline]
    pub fn ai(&self) -> (r: Vec3I)
        ensures
            r == self.v_i32_at(0),
    {
        self.v_i32[0]
    }

    /// The second integer vertex.
    #[inline]
    pub fn bi(&self) -> (r: Vec3I)
        ensures
            r == self.v_i32_at(1),
    {
        self.v_i32[1]
    }

    /// The third integer vertex.
    #[inline]
    pub fn ci(&self) -> (r: Vec3I)
        ensures
            r == self.v_i32_at(2),
    {
        self.v_i32[2]
    }

    /// The first texel coordinate.
    #[inline]
    pub fn tex_a(&self) -> (r: Vec2I)
        ensures
            r == self.tex_at(0),
    {
        self.tex_coords[0]
    }

    /// The second texel coordinate.
    #[inline]
    pub fn tex_b(&self) -> (r: Vec2I)
        ensures
            r == self.tex_at(1),
    {
        self.tex_coords[1]
    }

    /// The third texel coordinate.
    #[inline]
    pub fn tex_c(&self) -> (r: Vec2I)
        ensures
            r == self.tex_at(2),
    {
        self.tex_coords[2]
    }

    /// The first vertex normal.
    #[inline]
    pub fn nor_a(&self) -> (r: Vec3Fx)
        ensures
            r == self.normal_at(0),
    {
        self.normals[0]
    }

    /// The second vertex normal.
    #[inline]
    pub fn nor_b(&self) -> (r: Vec3Fx)
        ensures
            r == self.normal_at(1),
    {
        self.normals[1]
    }

    /// The third vertex normal.
    #[inline]
    pub fn nor_c(&self) -> (r: Vec3Fx)
        ensures
            r == self.normal_at(2),
    {
        self.normals[2]
    }
}

} // verus!
