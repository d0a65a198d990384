use delusion::delusion::Delusion;
use delusion::graphics::{MsaaOptions, Rgb, ScreenTriangle, DEPTH_MIN};
use delusion::model::{FaceIdx, Model, Texture};
use delusion::shader::{PhongShaderModel, PhongShaderSpec, ShaderPayload, WeirdShader};
use delusion::transform::{Mat4Fx, Vec2Fx, Vec3Fx, FX, SUB};

fn flat_model(diffuse: Rgb, specular: Rgb) -> Model {
    let uvs = vec![Vec2Fx { x: 0, y: 0 }];
    let normals = vec![Vec3Fx { x: 0, y: 0, z: FX }];
    let faces = vec![FaceIdx { vert: [0, 1, 2], uv: [0, 0, 0], norm: [0, 0, 0] }];
    Model::new(
        3,
        uvs,
        normals,
        faces,
        Texture::solid(diffuse),
        Texture::solid(Rgb { r: 128, g: 128, b: 255 }),
        Texture::solid(specular),
        true,
        true,
        true,
    )
    .unwrap()
}

fn unit_triangle(z: i64) -> ScreenTriangle {
    // screen-space vertices (10,10), (20,10), (10,20) at constant depth z/FX
    ScreenTriangle::new(
        10 * SUB,
        10 * SUB,
        z,
        FX,
        20 * SUB,
        10 * SUB,
        z,
        FX,
        10 * SUB,
        20 * SUB,
        z,
        FX,
    )
    .unwrap()
}

fn fb_at(d: &Delusion, x: usize, y: usize) -> u32 {
    let w = d.w();
    let h = d.h();
    d.get_frame_buff()[(h - 1 - y) * w + x]
}

const WHITE: u32 = 0x00ffffff;
const CLEAR: u32 = 328965; // packed (5, 5, 5)

fn fresh_canvas() -> Delusion {
    let mut d = Delusion::new(32, 32);
    d.clear_frame_buff(&Rgb { r: 5, g: 5, b: 5 });
    d.clear_depth_buff();
    d
}

fn staged_white_shader(model: &Model) -> PhongShaderModel {
    let light = Vec3Fx { x: 0, y: 0, z: FX };
    let mut s = PhongShaderModel::new();
    s.vertex(0, 0, &light, model);
    s.vertex(0, 1, &light, model);
    s.vertex(0, 2, &light, model);
    s
}

fn staged_weird_shader(model: &Model) -> WeirdShader {
    let light = Vec3Fx { x: 0, y: 0, z: FX };
    let mut s = WeirdShader::new();
    s.vertex(0, 0, &light, model);
    s.vertex(0, 1, &light, model);
    s.vertex(0, 2, &light, model);
    s
}

#[test]
fn white_triangle_scenario() {
    // a fully lit flat triangle: strictly interior pixels turn white,
    // pixels outside keep the clear color
    let model = flat_model(Rgb { r: 255, g: 255, b: 255 }, Rgb { r: 0, g: 0, b: 0 });
    let shader = staged_white_shader(&model);
    let mut d = fresh_canvas();
    let tri = unit_triangle(100 * FX);
    d.rasterize_tri(&tri, &shader, &model);
    for x in 0..32usize {
        for y in 0..32usize {
            let strictly_inside = x > 10 && y > 10 && x + y < 30;
            let outside = x < 10 || y < 10 || x + y > 30;
            if strictly_inside {
                assert_eq!(fb_at(&d, x, y), WHITE, "pixel ({}, {})", x, y);
            } else if outside {
                assert_eq!(fb_at(&d, x, y), CLEAR, "pixel ({}, {})", x, y);
            }
        }
    }
    // interior depth is z/w + 1/2 = 100.5 in FX units
    assert_eq!(d.get_depth(12, 12), 100 * FX + FX / 2);
}

#[test]
fn offscreen_triangle_writes_nothing() {
    let model = flat_model(Rgb { r: 255, g: 255, b: 255 }, Rgb { r: 0, g: 0, b: 0 });
    let shader = staged_white_shader(&model);
    let mut d = fresh_canvas();
    // entirely left of and below the buffer
    let tri = ScreenTriangle::new(
        -40 * SUB,
        -40 * SUB,
        100 * FX,
        FX,
        -20 * SUB,
        -40 * SUB,
        100 * FX,
        FX,
        -40 * SUB,
        -20 * SUB,
        100 * FX,
        FX,
    )
    .unwrap();
    d.rasterize_tri(&tri, &shader, &model);
    for x in 0..32usize {
        for y in 0..32usize {
            assert_eq!(fb_at(&d, x, y), CLEAR);
            assert_eq!(d.get_depth(x, y), DEPTH_MIN);
        }
    }
    // and one entirely beyond the right edge
    let tri = ScreenTriangle::new(
        40 * SUB,
        4 * SUB,
        100 * FX,
        FX,
        60 * SUB,
        4 * SUB,
        100 * FX,
        FX,
        40 * SUB,
        24 * SUB,
        100 * FX,
        FX,
    )
    .unwrap();
    d.rasterize_tri(&tri, &shader, &model);
    for x in 0..32usize {
        for y in 0..32usize {
            assert_eq!(fb_at(&d, x, y), CLEAR);
            assert_eq!(d.get_depth(x, y), DEPTH_MIN);
        }
    }
}

#[test]
fn depth_test_monotonic_far_then_near() {
    // back-to-front: depth 100 first, then 200 -- the nearer (larger)
    // depth must overwrite
    let model = flat_model(Rgb { r: 255, g: 255, b: 255 }, Rgb { r: 0, g: 0, b: 0 });
    let weird = staged_weird_shader(&model);
    let white = staged_white_shader(&model);
    let mut d = fresh_canvas();
    d.rasterize_tri(&unit_triangle(100 * FX), &weird, &model);
    assert_eq!(fb_at(&d, 12, 12), 79 * 65536 + 147 * 256 + 184);
    d.rasterize_tri(&unit_triangle(200 * FX), &white, &model);
    assert_eq!(fb_at(&d, 12, 12), WHITE);
    assert_eq!(d.get_depth(12, 12), 200 * FX + FX / 2);
}

#[test]
fn depth_test_monotonic_near_then_far() {
    // front-to-back: depth 200 first, then 100 -- the smaller depth
    // must NOT overwrite
    let model = flat_model(Rgb { r: 255, g: 255, b: 255 }, Rgb { r: 0, g: 0, b: 0 });
    let weird = staged_weird_shader(&model);
    let white = staged_white_shader(&model);
    let mut d = fresh_canvas();
    d.rasterize_tri(&unit_triangle(200 * FX), &white, &model);
    assert_eq!(fb_at(&d, 12, 12), WHITE);
    d.rasterize_tri(&unit_triangle(100 * FX), &weird, &model);
    assert_eq!(fb_at(&d, 12, 12), WHITE);
    assert_eq!(d.get_depth(12, 12), 200 * FX + FX / 2);
}

#[test]
fn msaa_full_coverage_matches_single_sample() {
    let model = flat_model(Rgb { r: 255, g: 255, b: 255 }, Rgb { r: 0, g: 0, b: 0 });
    let shader = staged_white_shader(&model);
    let tri = unit_triangle(100 * FX);

    let mut plain = fresh_canvas();
    plain.rasterize_tri(&tri, &shader, &model);

    let mut sampled = fresh_canvas();
    sampled.enable_msaa(MsaaOptions::X4);
    sampled.rasterize_tri(&tri, &shader, &model);

    // (12, 12) lies deep inside: all four subsamples hit, so the
    // multisampled pixel must match the single-sample result exactly
    assert_eq!(fb_at(&sampled, 12, 12), fb_at(&plain, 12, 12));
    assert_eq!(sampled.get_depth(12, 12), plain.get_depth(12, 12));
    assert_eq!(fb_at(&sampled, 12, 12), WHITE);
}

#[test]
fn msaa_zero_coverage_leaves_pixel() {
    let model = flat_model(Rgb { r: 255, g: 255, b: 255 }, Rgb { r: 0, g: 0, b: 0 });
    let shader = staged_white_shader(&model);
    let mut d = fresh_canvas();
    d.enable_msaa(MsaaOptions::X4);
    d.rasterize_tri(&unit_triangle(100 * FX), &shader, &model);
    // (19, 19) is inside the bounding box but beyond the hypotenuse;
    // no subsample hits, so color and depth keep their prior contents
    assert_eq!(fb_at(&d, 19, 19), CLEAR);
    assert_eq!(d.get_depth(19, 19), DEPTH_MIN);
}

#[test]
fn msaa_partial_coverage_blends_mean() {
    let model = flat_model(Rgb { r: 255, g: 255, b: 255 }, Rgb { r: 0, g: 0, b: 0 });
    let weird = staged_weird_shader(&model);
    let mut d = fresh_canvas();
    d.enable_msaa(MsaaOptions::X4);
    d.rasterize_tri(&unit_triangle(100 * FX), &weird, &model);
    // (15, 15) sits on the hypotenuse: two of the four subsamples hit.
    // The committed color is the mean of the two covered subsample
    // colors (both the toon base color) and the depth is the mean of
    // their (equal) depths.
    assert_eq!(fb_at(&d, 15, 15), 79 * 65536 + 147 * 256 + 184);
    assert_eq!(d.get_depth(15, 15), 100 * FX + FX / 2);
}

#[test]
fn msaa_partial_coverage_respects_depth_test() {
    let model = flat_model(Rgb { r: 255, g: 255, b: 255 }, Rgb { r: 0, g: 0, b: 0 });
    let weird = staged_weird_shader(&model);
    let white = staged_white_shader(&model);
    let mut d = fresh_canvas();
    // a near white triangle first, single-sampled
    d.rasterize_tri(&unit_triangle(200 * FX), &white, &model);
    assert_eq!(fb_at(&d, 15, 15), WHITE);
    // then a far triangle with partial coverage: its mean depth fails
    // the stored-depth test, so the pixel must keep the white color
    d.enable_msaa(MsaaOptions::X4);
    d.rasterize_tri(&unit_triangle(100 * FX), &weird, &model);
    assert_eq!(fb_at(&d, 15, 15), WHITE);
    assert_eq!(d.get_depth(15, 15), 200 * FX + FX / 2);
}

#[test]
fn phong_full_pipeline_headroom_clamp() {
    // straight-on light over a white texture with specular exponent 0:
    // diffuse + specular intensity is 2.0, so each channel hits the
    // deliberate headroom clamp min(235, 5 + 255 * 2) = 235
    let model = flat_model(Rgb { r: 255, g: 255, b: 255 }, Rgb { r: 0, g: 0, b: 0 });
    let identity = Mat4Fx {
        m00: FX, m01: 0, m02: 0, m03: 0,
        m10: 0, m11: FX, m12: 0, m13: 0,
        m20: 0, m21: 0, m22: FX, m23: 0,
        m30: 0, m31: 0, m32: 0, m33: FX,
    };
    let light = Vec3Fx { x: 0, y: 0, z: FX };
    let mut shader = PhongShaderSpec::new(&identity);
    shader.vertex(0, 0, &light, &model);
    shader.vertex(0, 1, &light, &model);
    shader.vertex(0, 2, &light, &model);
    let mut d = fresh_canvas();
    d.rasterize_tri(&unit_triangle(100 * FX), &shader, &model);
    assert_eq!(fb_at(&d, 12, 12), 235 * 65536 + 235 * 256 + 235);
}

#[test]
fn depth_clamps_to_byte_range() {
    let model = flat_model(Rgb { r: 255, g: 255, b: 255 }, Rgb { r: 0, g: 0, b: 0 });
    let shader = staged_white_shader(&model);
    // z/w far beyond 255: depth must clamp to 255 in FX units
    let mut d = fresh_canvas();
    d.rasterize_tri(&unit_triangle(1000 * FX), &shader, &model);
    assert_eq!(d.get_depth(12, 12), 255 * FX);
    // z/w below zero: depth must clamp to 0
    let mut d = fresh_canvas();
    d.rasterize_tri(&unit_triangle(-1000 * FX), &shader, &model);
    assert_eq!(d.get_depth(12, 12), 0);
}

#[test]
fn degenerate_triangle_rejected() {
    // a zero-area (collinear) triangle must reject every pixel rather
    // than fault
    let model = flat_model(Rgb { r: 255, g: 255, b: 255 }, Rgb { r: 0, g: 0, b: 0 });
    let shader = staged_white_shader(&model);
    let mut d = fresh_canvas();
    let tri = ScreenTriangle::new(
        10 * SUB,
        10 * SUB,
        100 * FX,
        FX,
        20 * SUB,
        20 * SUB,
        100 * FX,
        FX,
        15 * SUB,
        15 * SUB,
        100 * FX,
        FX,
    )
    .unwrap();
    d.rasterize_tri(&tri, &shader, &model);
    for x in 0..32usize {
        for y in 0..32usize {
            assert_eq!(fb_at(&d, x, y), CLEAR);
        }
    }
}

#[test]
fn buffer_accessors_bounds_checked() {
    let mut d = Delusion::new(16, 16);
    d.clear_depth_buff();
    // out-of-bounds read returns the neutral sentinel
    assert_eq!(d.get_depth(16, 0), 0);
    assert_eq!(d.get_depth(0, 16), 0);
    // out-of-bounds writes are no-ops
    d.set_depth(16, 0, 42);
    d.set_depth(0, 16, 42);
    d.set_color(99, 99, &Rgb { r: 1, g: 2, b: 3 });
    for i in 0..(16 * 16) {
        assert_eq!(d.get_frame_buff()[i], 0);
    }
    // in-bounds write lands at the vertically flipped index
    d.set_color(3, 2, &Rgb { r: 1, g: 2, b: 3 });
    assert_eq!(d.get_frame_buff()[(16 - 1 - 2) * 16 + 3], 1 * 65536 + 2 * 256 + 3);
    d.set_depth(3, 2, 7);
    assert_eq!(d.get_depth(3, 2), 7);
}

#[test]
fn msaa_switch_roundtrip() {
    let mut d = Delusion::new(8, 8);
    assert!(matches!(*d.msaa_status(), MsaaOptions::Disable));
    d.enable_msaa(MsaaOptions::X4);
    assert!(matches!(*d.msaa_status(), MsaaOptions::X4));
    d.disable_msaa();
    assert!(matches!(*d.msaa_status(), MsaaOptions::Disable));
    assert_eq!(d.w(), 8);
    assert_eq!(d.h(), 8);
}
