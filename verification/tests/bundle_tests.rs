use galileo::bundle::{DecodedImage, ImageVertex, RenderBundle};
use galileo::color::Color;
use galileo::error::GalileoError;
use galileo::mesh::PointInstance;
use galileo::tess::Point2;

fn red() -> Color {
    Color::rgba(255, 0, 0, 255)
}

fn square() -> Vec<Point2> {
    vec![
        Point2::new(0, 0),
        Point2::new(4, 0),
        Point2::new(4, 4),
        Point2::new(0, 4),
    ]
}

fn corner(x: i32, y: i32) -> ImageVertex {
    ImageVertex { x, y, u: 0, v: 0 }
}

#[test]
fn add_polygon_appends_vertices_and_indices() {
    let mut b = RenderBundle::new();
    b.add_polygon(&square(), red()).expect("valid ring");
    assert_eq!(b.poly_mesh.vertices.len(), 4);
    assert_eq!(b.poly_mesh.indices.len(), 6);
    assert_eq!(b.poly_mesh.vertices[0].x, 0);
    assert_eq!(b.poly_mesh.vertices[1].x, 4);
    assert_eq!(b.poly_mesh.vertices[0].color, red());
    // a second ring lands after the first, with offset indices
    b.add_polygon(&square(), red()).expect("valid ring");
    assert_eq!(b.poly_mesh.vertices.len(), 8);
    assert_eq!(b.poly_mesh.indices.len(), 12);
    assert!(b.poly_mesh.indices[6..].iter().all(|&i| (4..8).contains(&(i as usize))));
}

#[test]
fn short_ring_is_skipped_with_decoding_error() {
    let mut b = RenderBundle::new();
    let short = vec![Point2::new(0, 0), Point2::new(1, 1)];
    let r = b.add_polygon(&short, red());
    assert!(matches!(r, Err(GalileoError::Decoding(_))));
    assert_eq!(b.poly_mesh.vertices.len(), 0);
    assert_eq!(b.poly_mesh.indices.len(), 0);
    // the bundle keeps accepting primitives after the failure
    b.add_polygon(&square(), red()).expect("valid ring");
    assert_eq!(b.poly_mesh.vertices.len(), 4);
}

#[test]
fn polygon_with_hole_appends_both_rings() {
    let mut b = RenderBundle::new();
    // outline counter-clockwise, hole clockwise: opposite winding, so the
    // hole's signed area subtracts under the non-zero fill rule
    let outline = vec![
        Point2::new(0, 0),
        Point2::new(8, 0),
        Point2::new(8, 8),
        Point2::new(0, 8),
    ];
    let hole = vec![
        Point2::new(2, 2),
        Point2::new(2, 6),
        Point2::new(6, 6),
        Point2::new(6, 2),
    ];
    b.add_polygon_with_holes(&outline, &vec![hole.clone()], red()).expect("valid rings");
    assert_eq!(b.poly_mesh.vertices.len(), 8);
    // outline points first, then the hole's, in order
    let positions: Vec<(i32, i32)> = b.poly_mesh.vertices.iter().map(|v| (v.x, v.y)).collect();
    let expected: Vec<(i32, i32)> = outline
        .iter()
        .chain(hole.iter())
        .map(|p| (p.x, p.y))
        .collect();
    assert_eq!(positions, expected);
    // one fan per ring, the hole's offset past the outline's vertices
    assert_eq!(b.poly_mesh.indices, vec![0, 1, 2, 0, 2, 3, 4, 5, 6, 4, 6, 7]);
}

#[test]
fn short_hole_rejects_the_whole_primitive() {
    let mut b = RenderBundle::new();
    let outline = square();
    let bad_hole = vec![Point2::new(1, 1), Point2::new(2, 2)];
    let r = b.add_polygon_with_holes(&outline, &vec![bad_hole], red());
    assert!(matches!(r, Err(GalileoError::Decoding(_))));
    // nothing was added, not even the valid outline
    assert_eq!(b.poly_mesh.vertices.len(), 0);
    assert_eq!(b.poly_mesh.indices.len(), 0);
}

#[test]
fn clip_polygon_is_stored_separately() {
    let mut b = RenderBundle::new();
    b.add_polygon(&square(), red()).expect("valid ring");
    assert!(b.clip_area.is_none());
    b.set_clip_polygon(&square()).expect("valid ring");
    let clip = b.clip_area.as_ref().expect("clip mesh present");
    assert_eq!(clip.vertices.len(), 4);
    assert_eq!(clip.indices, vec![0, 1, 2, 0, 2, 3]);
    // the fill mesh is untouched
    assert_eq!(b.poly_mesh.vertices.len(), 4);
}

#[test]
fn short_clip_ring_is_rejected() {
    let mut b = RenderBundle::new();
    let short = vec![Point2::new(0, 0), Point2::new(1, 1)];
    assert!(matches!(b.set_clip_polygon(&short), Err(GalileoError::Decoding(_))));
    assert!(b.clip_area.is_none());
}

#[test]
fn points_bypass_tessellation() {
    let mut b = RenderBundle::new();
    let pts = vec![
        PointInstance { x: 1, y: 2, z: 0, color: red() },
        PointInstance { x: 3, y: 4, z: 0, color: red() },
    ];
    b.add_points(&pts);
    b.add_point(PointInstance { x: 5, y: 6, z: 0, color: red() });
    assert_eq!(b.points.len(), 3);
    assert_eq!(b.poly_mesh.vertices.len(), 0);
    assert_eq!(b.points[2].x, 5);
}

#[test]
fn screen_ref_polygon_goes_to_its_own_mesh() {
    let mut b = RenderBundle::new();
    b.add_screen_ref_polygon(&square(), red()).expect("valid ring");
    assert_eq!(b.screen_ref.vertices.len(), 4);
    assert_eq!(b.poly_mesh.vertices.len(), 0);
}

#[test]
fn image_store_is_shared_between_placements() {
    let mut b = RenderBundle::new();
    let img = DecodedImage::try_new(2, 2, vec![0u8; 16]).expect("matching buffer");
    let idx = b.add_image(img, corner(0, 0), corner(1, 0), corner(1, 1), corner(0, 1));
    assert_eq!(idx, 0);
    b.add_image_placement(idx, corner(2, 2), corner(3, 2), corner(3, 3), corner(2, 3))
        .expect("index exists");
    assert_eq!(b.image_store.len(), 1);
    assert_eq!(b.images.len(), 2);
    assert_eq!(b.images[1].image_index, 0);
}

#[test]
fn missing_image_index_is_not_found() {
    let mut b = RenderBundle::new();
    let r = b.add_image_placement(3, corner(0, 0), corner(1, 0), corner(1, 1), corner(0, 1));
    assert_eq!(r, Err(GalileoError::NotFound));
    assert_eq!(b.images.len(), 0);
}

#[test]
fn image_buffer_must_match_dimensions() {
    assert!(DecodedImage::try_new(2, 2, vec![0u8; 15]).is_none());
    assert!(DecodedImage::try_new(2, 2, vec![0u8; 16]).is_some());
    assert!(DecodedImage::try_new(0, 0, vec![]).is_some());
}
