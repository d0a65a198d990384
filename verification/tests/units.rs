use delusion::graphics::{
    barycentric, bounding_box, calc_conv, from_u8_rgb, interior, pixel_ceil_of, MsaaTensor, Rgb,
    ScreenTriangle, Weights, DEPTH_MIN,
};
use delusion::model::{pack_channel, unpack_channel, FaceIdx, Model, Texture};
use delusion::primitives::{Triangle, Vec2I, Vec3I};
use delusion::shader::{GouraudShader, ShaderPayload, WeirdShader};
use delusion::transform::{dot_fx, isqrt, normalize_fx, pow_fx, Vec2Fx, Vec3Fx, FX, SUB};

#[test]
fn packs_rgb_channels() {
    assert_eq!(from_u8_rgb(0, 0, 0), 0);
    assert_eq!(from_u8_rgb(255, 255, 255), 0x00ffffff);
    assert_eq!(from_u8_rgb(1, 2, 3), 1 * 65536 + 2 * 256 + 3);
    assert_eq!(from_u8_rgb(0x12, 0x34, 0x56), 0x123456);
}

fn right_triangle() -> ScreenTriangle {
    ScreenTriangle::new(
        10 * SUB,
        10 * SUB,
        0,
        FX,
        20 * SUB,
        10 * SUB,
        0,
        FX,
        10 * SUB,
        20 * SUB,
        0,
        FX,
    )
    .unwrap()
}

#[test]
fn barycentric_weights_sum_to_denominator() {
    let t = right_triangle();
    for (px, py) in [(12, 13), (0, 0), (10, 10), (25, 3), (15, 15)] {
        let w = barycentric(&t, px * SUB, py * SUB);
        // the three weights, as fractions of the signed area, sum to one
        assert_eq!(w.wa + w.wb + w.wc, w.den);
        assert!(w.den >= 0);
    }
}

#[test]
fn interior_test_accepts_and_rejects() {
    let t = right_triangle();
    // inside
    assert!(interior(&barycentric(&t, 12 * SUB, 12 * SUB)));
    // vertices and edges count as inside (no negative weight)
    assert!(interior(&barycentric(&t, 10 * SUB, 10 * SUB)));
    assert!(interior(&barycentric(&t, 15 * SUB, 15 * SUB)));
    // outside on each side
    assert!(!interior(&barycentric(&t, 9 * SUB, 12 * SUB)));
    assert!(!interior(&barycentric(&t, 12 * SUB, 9 * SUB)));
    assert!(!interior(&barycentric(&t, 16 * SUB, 15 * SUB)));
}

#[test]
fn degenerate_triangle_has_no_interior() {
    let t = ScreenTriangle::new(
        0,
        0,
        0,
        FX,
        5 * SUB,
        5 * SUB,
        0,
        FX,
        10 * SUB,
        10 * SUB,
        0,
        FX,
    )
    .unwrap();
    for (px, py) in [(0, 0), (5, 5), (3, 3), (12, 7)] {
        assert!(!interior(&barycentric(&t, px * SUB, py * SUB)));
    }
}

#[test]
fn winding_direction_is_irrelevant() {
    // the same triangle with clockwise winding accepts the same points
    let t = ScreenTriangle::new(
        10 * SUB,
        10 * SUB,
        0,
        FX,
        10 * SUB,
        20 * SUB,
        0,
        FX,
        20 * SUB,
        10 * SUB,
        0,
        FX,
    )
    .unwrap();
    assert!(interior(&barycentric(&t, 12 * SUB, 12 * SUB)));
    assert!(!interior(&barycentric(&t, 9 * SUB, 12 * SUB)));
}

#[test]
fn bounding_box_and_pixel_ceil() {
    let t = right_triangle();
    let bb = bounding_box(&t);
    assert_eq!(bb, (10 * SUB, 10 * SUB, 20 * SUB, 20 * SUB));
    assert_eq!(pixel_ceil_of(10 * SUB), 10);
    assert_eq!(pixel_ceil_of(10 * SUB + 1), 11);
    assert_eq!(pixel_ceil_of(-10 * SUB - 1), -10);
    assert_eq!(pixel_ceil_of(0), 0);
}

#[test]
fn sample_offsets_are_rotated_quarters() {
    // the rotated-grid table: four offsets of the +-0.25 corners turned
    // by about -26.6 degrees, in sub-pixel units
    assert_eq!(calc_conv(0), (-86, -29));
    assert_eq!(calc_conv(1), (86, 29));
    assert_eq!(calc_conv(2), (-29, 86));
    assert_eq!(calc_conv(3), (29, -86));
}

#[test]
fn msaa_tensor_stores_per_sample_state() {
    let mut t = MsaaTensor::new();
    for i in 0..4 {
        assert!(!t.mask(i));
        assert_eq!(t.dept(i), DEPTH_MIN);
        assert_eq!(t.colo(i), Rgb { r: 0, g: 0, b: 0 });
    }
    t.set_mask(2, true);
    t.set_dept(2, 12345);
    t.set_colo(2, &Rgb { r: 9, g: 8, b: 7 });
    assert!(t.mask(2));
    assert!(!t.mask(1));
    assert_eq!(t.dept(2), 12345);
    assert_eq!(t.colo(2), Rgb { r: 9, g: 8, b: 7 });
    assert_eq!(t.dept(0), DEPTH_MIN);
}

#[test]
fn isqrt_exact_values() {
    assert_eq!(isqrt(0), 0);
    assert_eq!(isqrt(1), 1);
    assert_eq!(isqrt(15), 3);
    assert_eq!(isqrt(16), 4);
    assert_eq!(isqrt(65536 * 65536), 65536);
    assert_eq!(isqrt(u64::MAX), 4294967295);
}

#[test]
fn normalize_three_four_five() {
    let v = Vec3Fx { x: 3 * FX, y: 4 * FX, z: 0 };
    let n = normalize_fx(&v);
    // 3/5 and 4/5 in fixed point, floored
    assert_eq!(n.x, 3 * FX * FX / (5 * FX));
    assert_eq!(n.y, 4 * FX * FX / (5 * FX));
    assert_eq!(n.z, 0);
    // zero stays zero
    let z = normalize_fx(&Vec3Fx { x: 0, y: 0, z: 0 });
    assert_eq!(z, Vec3Fx { x: 0, y: 0, z: 0 });
}

#[test]
fn dot_product_fixed_point() {
    let a = Vec3Fx { x: FX, y: 0, z: 0 };
    let b = Vec3Fx { x: FX / 2, y: FX, z: FX };
    assert_eq!(dot_fx(&a, &b), FX / 2);
    let c = Vec3Fx { x: -FX, y: 0, z: 0 };
    assert_eq!(dot_fx(&c, &b), -FX / 2);
}

#[test]
fn pow_fixed_point() {
    assert_eq!(pow_fx(FX, 255), FX);
    assert_eq!(pow_fx(FX / 2, 1), FX / 2);
    assert_eq!(pow_fx(FX / 2, 2), FX / 4);
    assert_eq!(pow_fx(0, 0), FX);
    assert_eq!(pow_fx(0, 3), 0);
}

#[test]
fn normal_channel_round_trip() {
    // unpacking a stored channel and packing it back recovers the byte
    for c in 0..=255u8 {
        let n = unpack_channel(c);
        assert!(-255 <= n && n <= 255);
        assert_eq!(pack_channel(n), c);
    }
    assert_eq!(unpack_channel(0), -255);
    assert_eq!(unpack_channel(255), 255);
}

fn checker_texture() -> Texture {
    // 2x2: top row red, blue; bottom row green, white
    let texels = vec![
        Rgb { r: 255, g: 0, b: 0 },
        Rgb { r: 0, g: 0, b: 255 },
        Rgb { r: 0, g: 255, b: 0 },
        Rgb { r: 255, g: 255, b: 255 },
    ];
    Texture::new(2, 2, texels).unwrap()
}

fn checker_model() -> Model {
    let uvs = vec![Vec2Fx { x: 0, y: 0 }];
    let normals = vec![Vec3Fx { x: 0, y: 0, z: FX }];
    let faces = vec![FaceIdx { vert: [0, 1, 2], uv: [0, 0, 0], norm: [0, 0, 0] }];
    Model::new(
        3,
        uvs,
        normals,
        faces,
        checker_texture(),
        Texture::solid(Rgb { r: 128, g: 64, b: 255 }),
        Texture::solid(Rgb { r: 42, g: 0, b: 0 }),
        true,
        true,
        true,
    )
    .unwrap()
}

#[test]
fn texture_sampling_flips_rows() {
    let m = checker_model();
    // v = 0 samples the bottom row, v near 1 the top row
    assert_eq!(m.diffuse(&Vec2Fx { x: 0, y: 0 }), Rgb { r: 0, g: 255, b: 0 });
    assert_eq!(m.diffuse(&Vec2Fx { x: FX / 2, y: 0 }), Rgb { r: 255, g: 255, b: 255 });
    assert_eq!(m.diffuse(&Vec2Fx { x: 0, y: FX / 2 }), Rgb { r: 255, g: 0, b: 0 });
    assert_eq!(m.diffuse(&Vec2Fx { x: FX / 2, y: FX / 2 }), Rgb { r: 0, g: 0, b: 255 });
}

#[test]
fn texture_sampling_falls_back_off_grid() {
    let m = checker_model();
    // outside the unit square: the neutral-blue diffuse fallback
    assert_eq!(m.diffuse(&Vec2Fx { x: 2 * FX, y: 0 }), Rgb { r: 79, g: 147, b: 184 });
    assert_eq!(m.diffuse(&Vec2Fx { x: -FX, y: 0 }), Rgb { r: 79, g: 147, b: 184 });
    assert_eq!(m.diffuse(&Vec2Fx { x: 0, y: FX }), Rgb { r: 79, g: 147, b: 184 });
    // the normal map falls back to the zero vector
    let n = m.normal(&Vec2Fx { x: 3 * FX, y: 0 });
    assert_eq!((n.x, n.y, n.z), (0, 0, 0));
    // the specular map falls back to exponent zero
    assert_eq!(m.specular(&Vec2Fx { x: 3 * FX, y: 0 }), 0);
    // on the grid, the specular exponent is the red channel
    assert_eq!(m.specular(&Vec2Fx { x: 0, y: 0 }), 42);
}

#[test]
fn model_rejects_out_of_range_indices() {
    let uvs = vec![Vec2Fx { x: 0, y: 0 }];
    let normals = vec![Vec3Fx { x: 0, y: 0, z: FX }];
    // the face points at normal 5, which does not exist
    let faces = vec![FaceIdx { vert: [0, 0, 0], uv: [0, 0, 0], norm: [0, 0, 5] }];
    let m = Model::new(
        3,
        uvs,
        normals,
        faces,
        Texture::solid(Rgb { r: 0, g: 0, b: 0 }),
        Texture::solid(Rgb { r: 0, g: 0, b: 0 }),
        Texture::solid(Rgb { r: 0, g: 0, b: 0 }),
        true,
        true,
        true,
    );
    assert!(m.is_none());
}

#[test]
fn texture_rejects_wrong_texel_count() {
    let texels = vec![Rgb { r: 0, g: 0, b: 0 }; 3];
    assert!(Texture::new(2, 2, texels).is_none());
}

#[test]
fn screen_triangle_rejects_huge_coordinates() {
    let t = ScreenTriangle::new(
        i64::MAX,
        0,
        0,
        FX,
        0,
        0,
        0,
        FX,
        0,
        SUB,
        0,
        FX,
    );
    assert!(t.is_none());
}

#[test]
fn gouraud_fragment_scales_texture_by_intensity() {
    let m = checker_model();
    // light at half intensity straight on
    let light = Vec3Fx { x: 0, y: 0, z: FX / 2 };
    let mut s = GouraudShader::new();
    s.vertex(0, 0, &light, &m);
    s.vertex(0, 1, &light, &m);
    s.vertex(0, 2, &light, &m);
    let w = Weights { wa: 1, wb: 0, wc: 0, den: 1 };
    let c = s.fragment(&w, &m);
    // uv (0,0) samples green; intensity 0.5 halves the channel
    assert_eq!(c, Rgb { r: 0, g: 127, b: 0 });
}

#[test]
fn weird_fragment_bands_intensity() {
    let m = checker_model();
    let cases = [
        (FX, Rgb { r: 79, g: 147, b: 184 }),
        (45875, Rgb { r: 63, g: 117, b: 147 }),  // 0.70: the 0.8 band
        (FX / 2, Rgb { r: 47, g: 88, b: 110 }),  // 0.50: the 0.6 band
        (23000, Rgb { r: 31, g: 58, b: 73 }),    // 0.35: the 0.4 band
        (13107, Rgb { r: 23, g: 44, b: 55 }),    // 0.20: the 0.3 band
        (6553, Rgb { r: 0, g: 0, b: 0 }),        // 0.10: below all bands
    ];
    for (lz, want) in cases {
        let light = Vec3Fx { x: 0, y: 0, z: lz };
        let mut s = WeirdShader::new();
        s.vertex(0, 0, &light, &m);
        s.vertex(0, 1, &light, &m);
        s.vertex(0, 2, &light, &m);
        let w = Weights { wa: 1, wb: 0, wc: 0, den: 1 };
        assert_eq!(s.fragment(&w, &m), want, "intensity {}", lz);
    }
}

#[test]
fn triangle_record_setters_and_getters() {
    let mut t = Triangle::new();
    assert_eq!(t.a(), Vec3Fx { x: 0, y: 0, z: 0 });
    t.set_vertices([
        Vec3Fx { x: 1, y: 2, z: 3 },
        Vec3Fx { x: 4, y: 5, z: 6 },
        Vec3Fx { x: 7, y: 8, z: 9 },
    ]);
    t.set_vertices_i32([
        Vec3I { x: 1, y: 1, z: 1 },
        Vec3I { x: 2, y: 2, z: 2 },
        Vec3I { x: 3, y: 3, z: 3 },
    ]);
    t.set_tex_coords([
        Vec2I { x: 10, y: 11 },
        Vec2I { x: 12, y: 13 },
        Vec2I { x: 14, y: 15 },
    ]);
    t.set_normals([
        Vec3Fx { x: FX, y: 0, z: 0 },
        Vec3Fx { x: 0, y: FX, z: 0 },
        Vec3Fx { x: 0, y: 0, z: FX },
    ]);
    assert_eq!(t.b(), Vec3Fx { x: 4, y: 5, z: 6 });
    assert_eq!(t.c(), Vec3Fx { x: 7, y: 8, z: 9 });
    assert_eq!(t.ai(), Vec3I { x: 1, y: 1, z: 1 });
    assert_eq!(t.bi(), Vec3I { x: 2, y: 2, z: 2 });
    assert_eq!(t.ci(), Vec3I { x: 3, y: 3, z: 3 });
    assert_eq!(t.tex_a(), Vec2I { x: 10, y: 11 });
    assert_eq!(t.tex_b(), Vec2I { x: 12, y: 13 });
    assert_eq!(t.tex_c(), Vec2I { x: 14, y: 15 });
    assert_eq!(t.nor_a(), Vec3Fx { x: FX, y: 0, z: 0 });
    assert_eq!(t.nor_b(), Vec3Fx { x: 0, y: FX, z: 0 });
    assert_eq!(t.nor_c(), Vec3Fx { x: 0, y: 0, z: FX });
}

#[test]
fn model_counts_and_status() {
    let m = checker_model();
    assert_eq!(m.nfaces(), 1);
    assert_eq!(m.nverts(), 3);
    assert_eq!(m.nnormals(), 1);
    assert_eq!(m.nuvs(), 1);
    assert_eq!(m.texture_status(), [true, true, true]);
    assert_eq!(m.face(0), [0, 1, 2]);
}
