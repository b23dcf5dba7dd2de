use std::cell::Cell;

use gpui_mobile::atlas::{AtlasTextureId, AtlasTextureKind};
use gpui_mobile::lifecycle::{appearance_for_ui_mode, WindowAppearance, EventLoopState, FramePlan, InitCallback, MainEventKind, QuitState, handle_main_event};
use gpui_mobile::chrome::SystemChromeState;
use gpui_mobile::render::{
    choose_alpha_mode, choose_surface_format, pipeline_plan, premultiplied_alpha_flag, subpixel_sprite_pipeline,
    uniform_layout, BlendMode, PipelinePlan, SpritePipeline, clamp_surface_side, frame_start, overflow_step, AcquireResult, AlphaMode,
    FrameStart, OverflowStep, PrimitiveBatch, SceneShape, SurfaceFormat,
};

#[test]
fn scene_batches_empty_scene() {
    let scene = SceneShape::default();
    let batches = scene.batches();
    assert!(batches.is_empty());
}

#[test]
fn scene_batches_quads_only() {
    let mut scene = SceneShape::default();
    scene.quads += 1;
    let batches = scene.batches();
    assert_eq!(batches.len(), 1);
    assert!(matches!(batches[0], PrimitiveBatch::Quads));
}

#[test]
fn scene_batches_follow_drawing_order() {
    let tex = AtlasTextureId { index: 2, kind: AtlasTextureKind::Polychrome };
    let scene = SceneShape {
        quads: 3,
        shadows: 0,
        paths: 1,
        underlines: 2,
        monochrome_sprites: 5,
        subpixel_sprites: 0,
        polychrome_sprites: 4,
        mono_texture_id: None,
        subpixel_texture_id: Some(tex),
        poly_texture_id: Some(tex),
    };
    assert_eq!(
        scene.batches(),
        vec![
            PrimitiveBatch::Quads,
            PrimitiveBatch::Paths,
            PrimitiveBatch::Underlines,
            PrimitiveBatch::PolychromeSprites { texture_id: tex },
        ]
    );
}

#[test]
fn surface_format_prefers_bgra_then_rgba_then_linear() {
    assert_eq!(choose_surface_format(&[SurfaceFormat::Other { srgb: true }, SurfaceFormat::Rgba8Unorm, SurfaceFormat::Bgra8Unorm]), Some(2));
    assert_eq!(choose_surface_format(&[SurfaceFormat::Other { srgb: false }, SurfaceFormat::Rgba8Unorm]), Some(1));
    assert_eq!(choose_surface_format(&[SurfaceFormat::Other { srgb: true }, SurfaceFormat::Other { srgb: false }, SurfaceFormat::Other { srgb: false }]), Some(1));
    assert_eq!(choose_surface_format(&[SurfaceFormat::Other { srgb: true }, SurfaceFormat::Other { srgb: true }]), Some(0));
    assert_eq!(choose_surface_format(&[]), None);
}

#[test]
fn alpha_mode_by_transparency() {
    assert_eq!(choose_alpha_mode(&[AlphaMode::Opaque, AlphaMode::PreMultiplied], true), Some(AlphaMode::PreMultiplied));
    assert_eq!(choose_alpha_mode(&[AlphaMode::Opaque, AlphaMode::PreMultiplied], false), Some(AlphaMode::Opaque));
    assert_eq!(choose_alpha_mode(&[AlphaMode::Auto, AlphaMode::Inherit], true), Some(AlphaMode::Inherit));
    assert_eq!(choose_alpha_mode(&[AlphaMode::Auto, AlphaMode::PostMultiplied], false), Some(AlphaMode::Auto));
    assert_eq!(choose_alpha_mode(&[], false), None);
}

#[test]
fn drawable_sides_are_clamped() {
    assert_eq!(clamp_surface_side(800, 4096), 800);
    assert_eq!(clamp_surface_side(9000, 4096), 4096);
    assert_eq!(clamp_surface_side(0, 4096), 1);
}

#[test]
fn frames_skip_on_lost_surfaces_and_grow_on_overflow() {
    assert_eq!(frame_start(AcquireResult::Acquired), FrameStart::Draw);
    assert_eq!(frame_start(AcquireResult::Outdated), FrameStart::ReconfigureAndSkip);
    assert_eq!(frame_start(AcquireResult::Failed), FrameStart::Skip);
    assert_eq!(overflow_step(1024, 4096), OverflowStep::GrowTo(2048));
    assert_eq!(overflow_step(3000, 4096), OverflowStep::GrowTo(4096));
    assert_eq!(overflow_step(4096, 4096), OverflowStep::DropFrame);
}

#[test]
fn quit_sets_should_quit() {
    let mut p: QuitState<fn()> = QuitState::new();
    assert!(!p.should_quit());
    assert!(!p.quit());
    assert!(p.should_quit());
}

#[test]
fn quit_callback_fires() {
    let fired = Cell::new(0);
    let mut p = QuitState::new();
    p.on_quit(|| fired.set(fired.get() + 1));
    assert!(p.quit());
    assert!(p.should_quit());
    assert_eq!(fired.get(), 1);
    assert!(p.quit());
    assert_eq!(fired.get(), 2);
}

#[test]
fn init_callbacks_run_once_in_order() {
    let mut s = EventLoopState::new();
    let mut chrome = SystemChromeState::new();
    s.finish_launching_stored();
    s.init_window_callback_stored();
    let p: FramePlan = s.plan_frame(false, false);
    assert!(p.init_callbacks().is_empty());
    let p = s.plan_frame(true, true);
    assert_eq!(p.init_callbacks(), vec![InitCallback::FinishLaunching, InitCallback::InitWindow]);
    assert!(p.render);
    assert!(s.plan_frame(true, true).init_callbacks().is_empty());
    // A new surface runs the deferred initialisation again, but the taken
    // callbacks stay taken.
    handle_main_event(&mut s, &mut chrome, MainEventKind::TerminateWindow, true);
    let p = s.plan_frame(true, true);
    assert!(p.run_init_callbacks);
    assert!(p.init_callbacks().is_empty());
    // A callback registered later runs at the next initialisation.
    s.init_window_callback_stored();
    handle_main_event(&mut s, &mut chrome, MainEventKind::TerminateWindow, true);
    assert_eq!(s.plan_frame(true, false).init_callbacks(), vec![InitCallback::InitWindow]);
}


#[test]
fn pipelines_follow_alpha_mode_and_dual_source_support() {
    assert_eq!(
        pipeline_plan(AlphaMode::PreMultiplied, true),
        PipelinePlan { blend: BlendMode::PremultipliedAlpha, subpixel_pipeline: true }
    );
    let plain = pipeline_plan(AlphaMode::Opaque, false);
    assert_eq!(plain, PipelinePlan { blend: BlendMode::Alpha, subpixel_pipeline: false });
    assert_eq!(pipeline_plan(AlphaMode::PostMultiplied, true).blend, BlendMode::Alpha);
    assert_eq!(subpixel_sprite_pipeline(&plain), SpritePipeline::Monochrome);
    assert_eq!(subpixel_sprite_pipeline(&pipeline_plan(AlphaMode::Auto, true)), SpritePipeline::Subpixel);
    assert_eq!(premultiplied_alpha_flag(AlphaMode::PreMultiplied), 1);
    assert_eq!(premultiplied_alpha_flag(AlphaMode::Inherit), 0);
}

#[test]
fn uniform_offsets_are_aligned() {
    assert_eq!(uniform_layout(256, 16, 32), (256, 512, 544));
    assert_eq!(uniform_layout(16, 16, 32), (16, 32, 64));
    assert_eq!(uniform_layout(64, 100, 8), (128, 256, 264));
}

#[test]
fn appearance_follows_night_mode_bits() {
    assert_eq!(appearance_for_ui_mode(0x21), WindowAppearance::Dark);
    assert_eq!(appearance_for_ui_mode(0x11), WindowAppearance::Light);
    assert_eq!(appearance_for_ui_mode(0), WindowAppearance::Light);
    assert_eq!(appearance_for_ui_mode(0x30), WindowAppearance::Light);
}
