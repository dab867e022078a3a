use galileo::fixed::SCALE;
use galileo::view::{
    apply_map_to_clip, apply_rotation_only, compute, normalize_heading_round_trip,
    rotate_heading_map, rotate_heading_screen, MapView, Point3, Rotation2,
};

fn plain_view(center_x: i64, center_y: i64, resolution: i64, width: u32, height: u32) -> MapView {
    MapView {
        center_x,
        center_y,
        resolution,
        rotation_x: Rotation2::zero(),
        rotation_z: Rotation2::zero(),
        width,
        height,
    }
}

#[test]
fn center_maps_to_origin_without_rotation() {
    let view = plain_view(5 * SCALE, -3 * SCALE, 2 * SCALE, 800, 600);
    let q = apply_map_to_clip(&view, &Point3::new(5 * SCALE, -3 * SCALE, 0));
    assert_eq!((q.x, q.y, q.z), (0, 0, 0));
}

#[test]
fn center_maps_to_origin_with_rotation() {
    // the translation cancels the center before rotation can move it,
    // so the law holds for any heading
    let rot = Rotation2::new(0, SCALE); // a quarter turn
    let view = MapView { rotation_z: rot, ..plain_view(7 * SCALE, SCALE, 3 * SCALE, 640, 480) };
    let q = apply_map_to_clip(&view, &Point3::new(7 * SCALE, SCALE, 0));
    assert_eq!((q.x, q.y, q.z), (0, 0, 0));
}

#[test]
fn viewport_edge_maps_to_unit() {
    // 1 map unit per pixel, 200 px wide viewport: a point 100 px east of
    // the center lands exactly on the right clip edge
    let view = plain_view(0, 0, SCALE, 200, 200);
    let q = apply_map_to_clip(&view, &Point3::new(100 * SCALE, 0, 0));
    assert_eq!(q.x, SCALE);
    assert_eq!(q.y, 0);
}

#[test]
fn rotation_only_quarter_turn() {
    let view = MapView {
        rotation_z: Rotation2::new(0, SCALE),
        ..plain_view(0, 0, SCALE, 100, 100)
    };
    // rotation about z by the negated heading: x axis goes to -y
    let q = apply_rotation_only(&view, &Point3::new(1000, 0, 0));
    assert_eq!((q.x, q.y, q.z), (0, -1000, 0));
}

#[test]
fn heading_round_trip_is_identity_for_unit_rotation() {
    // 90 degrees: cos 0, sin 1 in fixed point, an exactly unit pair
    let rot = Rotation2::new(0, SCALE);
    let (x, y) = (65536i64, 4096i64);
    let m = rotate_heading_map(&rot, x, y);
    let s = rotate_heading_screen(&rot, m.0, m.1);
    assert_eq!(normalize_heading_round_trip(s.0), x);
    assert_eq!(normalize_heading_round_trip(s.1), y);
}

#[test]
fn heading_round_trip_scales_by_squared_norm() {
    // a non-unit pair: the round trip returns the vector scaled by
    // (cos^2 + sin^2) / SCALE^2, here (2^30 + 0) / 2^32 = 1/4
    let rot = Rotation2::new(32768, 0);
    let m = rotate_heading_map(&rot, 400, 0);
    let s = rotate_heading_screen(&rot, m.0, m.1);
    assert_eq!(normalize_heading_round_trip(s.0), 100);
}

#[test]
fn try_new_rejects_bad_resolution() {
    let z = Rotation2::zero();
    assert!(MapView::try_new(0, 0, 0, z, z, 100, 100).is_none());
    assert!(MapView::try_new(0, 0, -5, z, z, 100, 100).is_none());
    assert!(MapView::try_new(0, 0, 1, z, z, 0, 100).is_none());
    assert!(MapView::try_new(0, 0, 1, z, z, 100, 100).is_some());
}

#[test]
fn compute_identity_like_view() {
    // 1 unit per pixel and a 2 px viewport make every component matrix the
    // fixed-point identity, so both composed matrices are too
    let view = plain_view(0, 0, SCALE, 2, 2);
    let m = compute(&view).expect("in range");
    assert_eq!(m.map_to_clip.m00, SCALE);
    assert_eq!(m.map_to_clip.m11, SCALE);
    assert_eq!(m.map_to_clip.m22, SCALE);
    assert_eq!(m.map_to_clip.m33, SCALE);
    assert_eq!(m.map_to_clip.m03, 0);
    assert_eq!(m.map_to_clip.m01, 0);
    assert_eq!(m.rotation_only.m00, SCALE);
    assert_eq!(m.rotation_only.m01, 0);
}

#[test]
fn compute_translation_lands_in_matrix() {
    // center at x = 16 map units: the translation column carries -16 units
    // through the unit scaling
    let view = plain_view(16 * SCALE, 0, SCALE, 2, 2);
    let m = compute(&view).expect("in range");
    assert_eq!(m.map_to_clip.m03, -16 * SCALE);
}
