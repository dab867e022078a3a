use galileo::color::Color;
use galileo::renderer::{
    choose_surface_format, classify_presentation_error, create_multisample_texture,
    create_stencil_texture, PresentationAction, SurfaceErrorKind, SurfaceFormat,
    TargetTextureFormat, WgpuRenderer,
};

fn fmt(id: u32, srgb: bool) -> SurfaceFormat {
    SurfaceFormat { id, srgb }
}

#[test]
fn first_srgb_format_wins() {
    let formats = vec![fmt(1, false), fmt(2, true), fmt(3, true)];
    assert_eq!(choose_surface_format(&formats), fmt(2, true));
}

#[test]
fn without_srgb_the_first_format_is_used() {
    let formats = vec![fmt(7, false), fmt(8, false)];
    assert_eq!(choose_surface_format(&formats), fmt(7, false));
}

#[test]
fn texture_descriptors_are_pinned() {
    let d = create_multisample_texture(640, 480, fmt(1, true));
    assert_eq!((d.width, d.height), (640, 480));
    assert_eq!(d.sample_count, 4);
    assert_eq!(d.mip_level_count, 1);
    assert_eq!(d.format, TargetTextureFormat::Surface(fmt(1, true)));
    let s = create_stencil_texture(640, 480, 1);
    assert_eq!(s.format, TargetTextureFormat::DepthStencil);
    assert_eq!(s.sample_count, 1);
}

#[test]
fn renderer_starts_white_with_matching_targets() {
    let r = WgpuRenderer::create(300, 200, fmt(1, true));
    assert_eq!(r.background, Color::rgba(255, 255, 255, 255));
    assert_eq!(r.size(), (300, 200));
    assert_eq!(r.multisampling_desc.width, 300);
    assert_eq!(r.stencil_desc.sample_count, 1);
    assert_eq!(r.stencil_desc_multisample.sample_count, 4);
    assert_eq!(r.target_generation, 0);
}

#[test]
fn set_background_changes_only_the_background() {
    let mut r = WgpuRenderer::create(300, 200, fmt(1, true));
    r.set_background(Color::rgba(0, 0, 0, 255));
    assert_eq!(r.background, Color::rgba(0, 0, 0, 255));
    assert_eq!(r.begin_frame_clear(), Color::rgba(0, 0, 0, 255));
    assert_eq!(r.size(), (300, 200));
    assert_eq!(r.target_generation, 0);
}

#[test]
fn create_bundle_is_empty() {
    let r = WgpuRenderer::create(100, 100, fmt(1, true));
    let b = r.create_bundle();
    assert!(b.poly_mesh.vertices.is_empty());
    assert!(b.poly_mesh.indices.is_empty());
    assert!(b.clip_area.is_none());
    assert!(b.points.is_empty());
    assert!(b.screen_ref.vertices.is_empty());
    assert!(b.screen_ref.indices.is_empty());
    assert!(b.image_store.is_empty());
    assert!(b.images.is_empty());
}

#[test]
fn presentation_errors_classify_per_policy() {
    // lost or outdated surface: reconfigure and retry
    assert_eq!(
        classify_presentation_error(&SurfaceErrorKind::Lost),
        PresentationAction::ResizeAndRetry
    );
    assert_eq!(
        classify_presentation_error(&SurfaceErrorKind::Outdated),
        PresentationAction::ResizeAndRetry
    );
    // a timeout is transient: ignored, retried next frame
    assert_eq!(
        classify_presentation_error(&SurfaceErrorKind::Timeout),
        PresentationAction::RetryNextFrame
    );
    // out of memory ends the render session
    assert_eq!(
        classify_presentation_error(&SurfaceErrorKind::OutOfMemory),
        PresentationAction::Fatal
    );
}

#[test]
fn zero_resize_is_ignored_and_real_resize_lands_exactly() {
    let mut r = WgpuRenderer::create(100, 100, fmt(1, true));
    r.resize(300, 200);
    assert_eq!(r.size(), (300, 200));
    assert_eq!(r.target_generation, 1);
    // a zero dimension, as sent while minimized, must change nothing
    r.resize(0, 200);
    assert_eq!(r.size(), (300, 200));
    assert_eq!(r.multisampling_desc.width, 300);
    assert_eq!(r.target_generation, 1);
    r.resize(300, 0);
    assert_eq!(r.size(), (300, 200));
    // the next real resize produces targets exactly at its size
    r.resize(150, 100);
    assert_eq!(r.size(), (150, 100));
    assert_eq!(r.multisampling_desc.width, 150);
    assert_eq!(r.multisampling_desc.height, 100);
    assert_eq!(r.stencil_desc.width, 150);
    assert_eq!(r.stencil_desc_multisample.width, 150);
    assert_eq!(r.target_generation, 2);
}
