//! Tests of the leaf components: the globals record and the pixel-to-NDC
//! mapping, the effect registry's cyclic selection, the format choice, the
//! effect descriptors, and the quad geometry.

use postfx::post_processing::{
    AddressMode, FilterMode, LoadOp, PostProcessing, PrimitiveTopology, StoreOp, TargetRef,
};
use postfx::registry::EffectRegistry;
use postfx::shader_globals::{cursor_from_pixel, Globals};
use postfx::surface::{choose_surface_format, TextureFormat};
use postfx::rectangle::{Rectangle, Vertex};

fn fmt(code: u32, srgb: bool) -> TextureFormat {
    TextureFormat { code, srgb }
}

#[test]
fn new_globals_is_zeroed() {
    let g = Globals::new();
    assert_eq!(g.time_millis, 0);
    assert_eq!(g.cursor_x.num, 0);
    assert_eq!(g.cursor_x.den, 1);
    assert_eq!(g.cursor_y.num, 0);
    assert_eq!(g.cursor_y.den, 1);
}

#[test]
fn cursor_ndc_formula_is_exact() {
    // 2 * 300 / 800 - 1 = -1/4, kept as -200 / 800.
    let c = cursor_from_pixel(300, 800);
    assert_eq!(c.num, -200);
    assert_eq!(c.den, 800);
    // The window's midpoint maps to zero.
    let c = cursor_from_pixel(110, 220);
    assert_eq!(c.num, 0);
    assert_eq!(c.den, 220);
    // The left edge maps to -1 and the right edge to +1.
    assert_eq!(cursor_from_pixel(0, 640).num, -640);
    assert_eq!(cursor_from_pixel(640, 640).num, 640);
}

#[test]
fn cursor_ndc_is_not_clamped() {
    // A drag that left the window: positions outside 0..width map outside
    // [-1, 1] and stay there.
    let c = cursor_from_pixel(-100, 800);
    assert_eq!(c.num, -1000); // -1.25 as a rational over 800
    let c = cursor_from_pixel(1000, 800);
    assert_eq!(c.num, 1200); // 1.5 as a rational over 800
}

#[test]
fn set_cursor_replaces_both_axes_and_keeps_time() {
    let mut g = Globals::new();
    g.set_time(42);
    g.set_cursor(300, 110, 800, 220);
    assert_eq!(g.time_millis, 42);
    assert_eq!(g.cursor_x.num, -200);
    assert_eq!(g.cursor_x.den, 800);
    assert_eq!(g.cursor_y.num, 0);
    assert_eq!(g.cursor_y.den, 220);
}

#[test]
fn set_time_keeps_cursor_and_is_monotone() {
    let mut g = Globals::new();
    g.set_cursor(10, 20, 100, 100);
    g.set_time(5);
    let first = g.time_millis;
    g.set_time(9);
    assert!(g.time_millis >= first);
    // Full-record semantics: the cursor written before carries over
    // unchanged through both time updates.
    assert_eq!(g.cursor_x.num, -80);
    assert_eq!(g.cursor_y.num, -60);
}

fn effects(n: u64) -> Vec<PostProcessing> {
    (0..n).map(|i| PostProcessing::new(i, fmt(1, true))).collect()
}

#[test]
fn advance_n_times_lands_on_n_mod_k() {
    let mut r = EffectRegistry::new(effects(3));
    assert_eq!(r.current, 0);
    for _ in 0..7 {
        r.advance();
    }
    assert_eq!(r.current, 7 % 3);
}

#[test]
fn advance_k_times_returns_to_start() {
    let mut r = EffectRegistry::new(effects(4));
    let first = *r.current();
    for _ in 0..4 {
        r.advance();
    }
    assert_eq!(r.current, 0);
    assert_eq!(*r.current(), first);
}

#[test]
fn single_effect_registry_is_a_fixed_point() {
    // The degenerate size-1 registry: advance wraps straight back.
    let mut r = EffectRegistry::new(effects(1));
    r.advance();
    assert_eq!(r.current, 0);
}

#[test]
fn choose_format_prefers_first_srgb() {
    let formats = vec![fmt(10, false), fmt(11, true), fmt(12, true)];
    assert_eq!(choose_surface_format(&formats), fmt(11, true));
}

#[test]
fn choose_format_falls_back_to_first() {
    let formats = vec![fmt(10, false), fmt(11, false)];
    assert_eq!(choose_surface_format(&formats), fmt(10, false));
}

#[test]
fn effect_descriptors_match_construction() {
    let e = PostProcessing::new(5, fmt(9, true));
    assert_eq!(e.pipeline.shader, 5);
    assert_eq!(e.pipeline.target_format, fmt(9, true));
    assert_eq!(e.pipeline.topology, PrimitiveTopology::TriangleList);
    assert!(e.pipeline.front_face_ccw);
    assert!(e.pipeline.cull_back_faces);
    assert!(e.pipeline.alpha_blending);
    assert_eq!(e.sampler.address_mode_u, AddressMode::ClampToEdge);
    assert_eq!(e.sampler.address_mode_v, AddressMode::ClampToEdge);
    assert_eq!(e.sampler.address_mode_w, AddressMode::ClampToEdge);
    assert_eq!(e.sampler.mag_filter, FilterMode::Linear);
    assert_eq!(e.sampler.min_filter, FilterMode::Nearest);
    assert_eq!(e.sampler.mipmap_filter, FilterMode::Nearest);
}

#[test]
fn post_pass_loads_and_draws_full_screen() {
    let e = PostProcessing::new(5, fmt(9, true));
    let pass = e.render_pass(TargetRef::Intermediate, TargetRef::Screen).unwrap();
    assert_eq!(pass.load, LoadOp::Load);
    assert_eq!(pass.store, StoreOp::Store);
    assert_eq!(pass.dest, TargetRef::Screen);
    assert_eq!(pass.globals_group, 0);
    assert_eq!(pass.texture_group, 1);
    assert_eq!(pass.texture_bind_group.texture, TargetRef::Intermediate);
    assert_eq!(pass.texture_bind_group.sampler, e.sampler);
    assert_eq!(pass.vertex_count, 6);
    assert_eq!(pass.instance_count, 1);
}

#[test]
fn texture_bind_group_is_rebuilt_from_the_source() {
    let e = PostProcessing::new(5, fmt(9, true));
    let bg = e.create_texture_bind_group(TargetRef::Screen);
    assert_eq!(bg.texture, TargetRef::Screen);
    assert_eq!(bg.sampler, e.sampler);
}

#[test]
fn effect_update_hands_back_the_full_record() {
    let e = PostProcessing::new(5, fmt(9, true));
    let mut g = Globals::new();
    g.set_time(7);
    g.set_cursor(1, 2, 10, 10);
    assert_eq!(e.update(&g), g);
}

#[test]
fn rectangle_expands_to_its_four_corners() {
    let r = Rectangle { top: 50, left: -30, height: 40, width: 60 };
    let v = r.create_vertices();
    assert_eq!(
        v,
        vec![
            Vertex { x: -30, y: 50, u: 0, v: 0 },
            Vertex { x: -30, y: 10, u: 0, v: 1 },
            Vertex { x: 30, y: 10, u: 1, v: 1 },
            Vertex { x: 30, y: 50, u: 1, v: 0 },
        ]
    );
}

#[test]
fn rectangle_indices_form_two_triangles() {
    assert_eq!(Rectangle::get_indices(), vec![0, 1, 2, 0, 2, 3]);
}
