//! Tests of the frame orchestrator: the per-frame plan, resize handling,
//! event consumption, and the recovery dispatch for failed acquisitions.

use postfx::frame::{Directive, EventResponse, InputEvent, State};
use postfx::post_processing::{LoadOp, PostProcessing, StoreOp, TargetRef};
use postfx::surface::{AcquiredImage, SurfaceConfig, SurfaceError, TextureFormat, TextureUsage};

fn fmt() -> TextureFormat {
    TextureFormat { code: 9, srgb: true }
}

fn two_effect_state() -> State {
    let effects = vec![PostProcessing::new(1, fmt()), PostProcessing::new(2, fmt())];
    State::new(800, 220, fmt(), 0, effects)
}

fn image(width: u32, height: u32) -> AcquiredImage {
    AcquiredImage {
        width,
        height,
        format: fmt(),
        sample_count: 1,
        mip_level_count: 1,
        usage: TextureUsage { render_attachment: true, texture_binding: false },
    }
}

#[test]
fn reconfigure_then_render_sizes_intermediate_exactly() {
    let mut s = two_effect_state();
    let applied = s.resize(640, 480);
    assert_eq!(
        applied,
        Some(SurfaceConfig { width: 640, height: 480, format: fmt(), present_mode: 0 })
    );
    // The surface provider returns images at the configured size.
    let plan = s.render(Ok(image(640, 480))).unwrap();
    assert_eq!(plan.intermediate.width, 640);
    assert_eq!(plan.intermediate.height, 480);
    assert_eq!(plan.intermediate.format, fmt());
    assert_eq!(plan.intermediate.sample_count, 1);
    assert_eq!(plan.intermediate.mip_level_count, 1);
    assert!(plan.intermediate.usage.texture_binding);
    assert!(plan.intermediate.usage.render_attachment);
}

#[test]
fn resize_with_a_zero_side_is_ignored() {
    let mut s = two_effect_state();
    assert_eq!(s.resize(0, 480), None);
    assert_eq!(s.resize(640, 0), None);
    assert_eq!(s.config.width, 800);
    assert_eq!(s.config.height, 220);
}

#[test]
fn frame_plan_runs_scene_then_current_effect_then_presents() {
    let s = two_effect_state();
    let plan = s.render(Ok(image(800, 220))).unwrap();
    // Scene pass first, into the intermediate target, clear-then-draw.
    assert_eq!(plan.scene.target, TargetRef::Intermediate);
    assert_eq!(plan.scene.load, LoadOp::Clear);
    assert_eq!(plan.scene.store, StoreOp::Store);
    assert_eq!(plan.scene.globals_group, 0);
    // Post pass second, sampling the intermediate target onto the screen.
    assert_eq!(plan.post.texture_bind_group.texture, TargetRef::Intermediate);
    assert_eq!(plan.post.dest, TargetRef::Screen);
    assert_eq!(plan.post.load, LoadOp::Load);
    // The starting selection is the first effect.
    assert_eq!(plan.post.pipeline.shader, 1);
    // The presented image is the acquired one.
    assert_eq!(plan.present, TargetRef::Screen);
}

#[test]
fn frame_plan_uploads_the_current_full_record() {
    let mut s = two_effect_state();
    s.input(InputEvent::CursorMoved { x: 200, y: 55 });
    let upload = s.update(1234);
    assert_eq!(upload, s.globals);
    let plan = s.render(Ok(image(800, 220))).unwrap();
    assert_eq!(plan.globals_upload.time_millis, 1234);
    assert_eq!(plan.globals_upload.cursor_x.num, 2 * 200 - 800);
    assert_eq!(plan.globals_upload.cursor_x.den, 800);
    assert_eq!(plan.globals_upload.cursor_y.num, 2 * 55 - 220);
    assert_eq!(plan.globals_upload.cursor_y.den, 220);
}

#[test]
fn click_advances_and_next_frame_uses_only_the_new_effect() {
    let mut s = two_effect_state();
    let a = *s.registry.current();
    assert_eq!(s.input(InputEvent::MouseLeftPressed), EventResponse::Continue);
    let b = *s.registry.current();
    assert_eq!(s.registry.current, 1);
    let plan = s.render(Ok(image(800, 220))).unwrap();
    // The plan is built from B's pipeline and sampler alone; A's shader
    // does not appear anywhere in it.
    assert_eq!(plan.post.pipeline, b.pipeline);
    assert_eq!(plan.post.texture_bind_group.sampler, b.sampler);
    assert_ne!(plan.post.pipeline.shader, a.pipeline.shader);
}

#[test]
fn short_tap_advances_and_long_press_does_not() {
    let mut s = two_effect_state();
    s.input(InputEvent::TouchStarted { time_millis: 100 });
    s.input(InputEvent::TouchEnded { time_millis: 599 });
    assert_eq!(s.registry.current, 1);
    // Exactly the threshold is no longer a tap.
    s.input(InputEvent::TouchStarted { time_millis: 1000 });
    s.input(InputEvent::TouchEnded { time_millis: 1500 });
    assert_eq!(s.registry.current, 1);
}

#[test]
fn touch_move_updates_the_cursor() {
    let mut s = two_effect_state();
    s.input(InputEvent::TouchMoved { x: 400, y: 110 });
    assert_eq!(s.globals.cursor_x.num, 0);
    assert_eq!(s.globals.cursor_x.den, 800);
    assert_eq!(s.globals.cursor_y.num, 0);
    assert_eq!(s.globals.cursor_y.den, 220);
}

#[test]
fn resize_event_asks_for_one_configuration() {
    let mut s = two_effect_state();
    let r = s.input(InputEvent::Resized { width: 1024, height: 768 });
    assert_eq!(
        r,
        EventResponse::Configure(SurfaceConfig {
            width: 1024,
            height: 768,
            format: fmt(),
            present_mode: 0,
        })
    );
    let r = s.input(InputEvent::Resized { width: 0, height: 768 });
    assert_eq!(r, EventResponse::Continue);
    assert_eq!(s.config.width, 1024);
}

#[test]
fn close_and_quit_key_leave_the_loop() {
    let mut s = two_effect_state();
    assert_eq!(s.input(InputEvent::CloseRequested), EventResponse::Exit);
    assert_eq!(s.input(InputEvent::EscapePressed), EventResponse::Exit);
}

#[test]
fn failed_acquisition_yields_no_plan() {
    let s = two_effect_state();
    assert_eq!(s.render(Err(SurfaceError::Lost)), Err(SurfaceError::Lost));
    assert_eq!(s.render(Err(SurfaceError::Outdated)), Err(SurfaceError::Outdated));
    assert_eq!(s.render(Err(SurfaceError::Timeout)), Err(SurfaceError::Timeout));
    assert_eq!(s.render(Err(SurfaceError::OutOfMemory)), Err(SurfaceError::OutOfMemory));
}

#[test]
fn lost_or_outdated_surface_reconfigures_with_last_known_size() {
    let mut s = two_effect_state();
    s.resize(640, 480);
    let expected = Directive::Reconfigure { width: 640, height: 480 };
    assert_eq!(s.dispatch(SurfaceError::Lost), expected);
    assert_eq!(s.dispatch(SurfaceError::Outdated), expected);
}

#[test]
fn out_of_memory_exits_the_loop() {
    let s = two_effect_state();
    assert_eq!(s.dispatch(SurfaceError::OutOfMemory), Directive::Exit);
}

#[test]
fn timeout_skips_the_frame_without_reconfiguring() {
    let s = two_effect_state();
    assert_eq!(s.dispatch(SurfaceError::Timeout), Directive::SkipFrame);
}

#[test]
fn update_time_is_monotone_across_frames() {
    let mut s = two_effect_state();
    s.update(100);
    let t1 = s.globals.time_millis;
    s.update(250);
    assert!(s.globals.time_millis >= t1);
    assert_eq!(s.globals.time_millis, 250);
}
