//! A software triangle rasterizer, verified with Verus.
//!
//! The renderer works on exact integer arithmetic throughout: screen-space
//! positions are held on a sub-pixel grid (`SUB` units per pixel), all other
//! real-valued quantities (depth, normals, light, texture coordinates) are
//! held in two's-complement fixed point with `FX` units per 1.0.  Barycentric
//! weights are kept as exact integer fractions of the triangle's signed area,
//! so the interior test, the perspective-correct depth and every interpolated
//! attribute are computed exactly and carry exact contracts.
//!
//! The surrounding application supplies the floating-point world: it builds
//! the model/camera/projection/viewport matrices, divides clip positions by
//! their homogeneous `w`, and hands the core plain integers.

pub mod delusion;
pub mod graphics;
pub mod model;
pub mod primitives;
pub mod shader;
pub mod transform;
