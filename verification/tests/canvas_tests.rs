use galileo::bundle::RenderBundle;
use galileo::canvas::{
    plan_draw_bundles, select_attachments, ColorTargetChoice, DrawCommand, RenderOptions,
    WgpuCanvas,
};
use galileo::color::Color;
use galileo::fixed::SCALE;
use galileo::mesh::PointInstance;
use galileo::packed::WgpuPackedBundle;
use galileo::tess::Point2;
use galileo::view::{MapView, Rotation2};

fn square() -> Vec<Point2> {
    vec![
        Point2::new(0, 0),
        Point2::new(4, 0),
        Point2::new(4, 4),
        Point2::new(0, 4),
    ]
}

#[test]
fn antialias_selects_multisample_attachments() {
    let a = select_attachments(RenderOptions { antialias: true });
    assert_eq!(a.color_target, ColorTargetChoice::Multisample);
    assert!(a.resolve_to_frame);
    assert_eq!(a.depth_stencil_samples, 4);
    assert!(a.clear_depth && a.clear_stencil);
}

#[test]
fn no_antialias_targets_frame_directly() {
    let a = select_attachments(RenderOptions { antialias: false });
    assert_eq!(a.color_target, ColorTargetChoice::Frame);
    assert!(!a.resolve_to_frame);
    assert_eq!(a.depth_stencil_samples, 1);
    assert!(a.clear_depth && a.clear_stencil);
}

#[test]
fn passes_load_color_and_clear_depth_stencil_to_fixed_values() {
    for antialias in [false, true] {
        let a = select_attachments(RenderOptions { antialias });
        // color is loaded, never cleared mid-frame: painter's algorithm
        assert!(a.load_color);
        // depth clears to the farthest plane (1.0 in fixed point),
        // stencil clears to zero, and both are dropped at pass end
        assert_eq!(a.depth_clear_value, SCALE);
        assert_eq!(a.stencil_clear_value, 0);
        assert!(a.discard_depth_stencil);
    }
}

#[test]
fn empty_point_bundle_draws_nothing_with_antialias() {
    // a bundle whose only content would have been an empty point list
    let b = RenderBundle::new();
    let p = WgpuPackedBundle::new(&b);
    let plan = plan_draw_bundles(&vec![p], RenderOptions { antialias: true });
    assert!(plan.commands.is_empty());
    assert!(!plan.commands.iter().any(|c| matches!(c, DrawCommand::DrawPoints { .. })));
}

#[test]
fn points_produce_one_instanced_draw() {
    let mut b = RenderBundle::new();
    b.add_point(PointInstance { x: 0, y: 0, z: 0, color: Color::rgba(0, 0, 0, 255) });
    b.add_point(PointInstance { x: 1, y: 0, z: 0, color: Color::rgba(0, 0, 0, 255) });
    let p = WgpuPackedBundle::new(&b);
    let plan = plan_draw_bundles(&vec![p], RenderOptions { antialias: true });
    assert_eq!(plan.commands.len(), 1);
    assert!(matches!(
        plan.commands[0],
        DrawCommand::DrawPoints { bundle: 0, point_count: 2 }
    ));
}

#[test]
fn clip_draw_comes_first_in_its_bundle() {
    let mut b = RenderBundle::new();
    b.add_polygon(&square(), Color::rgba(8, 8, 8, 255)).unwrap();
    b.set_clip_polygon(&square()).unwrap();
    let p = WgpuPackedBundle::new(&b);
    let plan = plan_draw_bundles(&vec![p], RenderOptions { antialias: false });
    assert_eq!(plan.commands.len(), 2);
    assert!(matches!(plan.commands[0], DrawCommand::DrawClip { bundle: 0, index_count: 6 }));
    assert!(matches!(plan.commands[1], DrawCommand::DrawPoly { bundle: 0, index_count: 6 }));
}

#[test]
fn bundles_are_drawn_in_caller_order() {
    let mut b1 = RenderBundle::new();
    b1.add_polygon(&square(), Color::rgba(1, 0, 0, 255)).unwrap();
    let mut b2 = RenderBundle::new();
    b2.add_point(PointInstance { x: 0, y: 0, z: 0, color: Color::rgba(0, 1, 0, 255) });
    let packed = vec![WgpuPackedBundle::new(&b1), WgpuPackedBundle::new(&b2)];
    let plan = plan_draw_bundles(&packed, RenderOptions { antialias: false });
    assert_eq!(plan.commands.len(), 2);
    assert!(matches!(plan.commands[0], DrawCommand::DrawPoly { bundle: 0, .. }));
    assert!(matches!(plan.commands[1], DrawCommand::DrawPoints { bundle: 1, .. }));
}

#[test]
fn canvas_carries_the_view_uniform() {
    let view = MapView {
        center_x: 0,
        center_y: 0,
        resolution: SCALE,
        rotation_x: Rotation2::zero(),
        rotation_z: Rotation2::zero(),
        width: 2,
        height: 2,
    };
    let canvas = WgpuCanvas::new(&view).expect("matrices in range");
    assert_eq!(canvas.size(), (2, 2));
    assert_eq!(canvas.uniform.resolution, SCALE);
    assert_eq!(canvas.uniform.view_proj.m00, SCALE);
    assert_eq!(canvas.uniform.inv_screen_w, SCALE / 2);
    assert_eq!(canvas.uniform.inv_screen_h, SCALE / 2);
    let b = canvas.create_bundle();
    let p = canvas.pack_bundle(&b);
    let plan = canvas.draw_bundles(&vec![p], RenderOptions::default());
    assert!(plan.commands.is_empty());
}

#[test]
fn canvas_create_bundle_is_empty() {
    let view = MapView {
        center_x: 0,
        center_y: 0,
        resolution: SCALE,
        rotation_x: Rotation2::zero(),
        rotation_z: Rotation2::zero(),
        width: 2,
        height: 2,
    };
    let canvas = WgpuCanvas::new(&view).expect("matrices in range");
    let b = canvas.create_bundle();
    assert!(b.poly_mesh.vertices.is_empty());
    assert!(b.poly_mesh.indices.is_empty());
    assert!(b.clip_area.is_none());
    assert!(b.points.is_empty());
    assert!(b.screen_ref.vertices.is_empty());
    assert!(b.screen_ref.indices.is_empty());
    assert!(b.image_store.is_empty());
    assert!(b.images.is_empty());
}
