use galileo::bundle::{DecodedImage, ImageVertex, RenderBundle};
use galileo::color::Color;
use galileo::mesh::PointInstance;
use galileo::packed::WgpuPackedBundle;
use galileo::tess::Point2;

fn square() -> Vec<Point2> {
    vec![
        Point2::new(0, 0),
        Point2::new(4, 0),
        Point2::new(4, 4),
        Point2::new(0, 4),
    ]
}

fn corner(x: i32, y: i32) -> ImageVertex {
    ImageVertex { x, y, u: 0, v: 0 }
}

fn sample_bundle() -> RenderBundle {
    let mut b = RenderBundle::new();
    b.add_polygon(&square(), Color::rgba(10, 20, 30, 255)).unwrap();
    b.set_clip_polygon(&square()).unwrap();
    b.add_point(PointInstance { x: 1, y: 2, z: 0, color: Color::rgba(0, 0, 0, 255) });
    let img = DecodedImage::try_new(1, 1, vec![9, 9, 9, 9]).unwrap();
    b.add_image(img, corner(0, 0), corner(1, 0), corner(1, 1), corner(0, 1));
    b
}

#[test]
fn empty_collections_produce_no_buffers() {
    let b = RenderBundle::new();
    let p = WgpuPackedBundle::new(&b);
    assert!(p.map_ref_buffers.is_none());
    assert!(p.clip_area_buffers.is_none());
    assert!(p.screen_ref_buffers.is_none());
    assert!(p.dot_buffers.is_none());
    assert!(p.textures.is_empty());
    assert!(p.image_buffers.is_empty());
}

#[test]
fn populated_collections_are_snapshot_exactly() {
    let b = sample_bundle();
    let p = WgpuPackedBundle::new(&b);
    let mesh = p.map_ref_buffers.as_ref().expect("fill mesh packed");
    assert_eq!(mesh.vertices, b.poly_mesh.vertices);
    assert_eq!(mesh.indices, b.poly_mesh.indices);
    assert_eq!(mesh.index_count, 6);
    let clip = p.clip_area_buffers.as_ref().expect("clip mesh packed");
    assert_eq!(clip.index_count, 6);
    let dots = p.dot_buffers.as_ref().expect("points packed");
    assert_eq!(dots.point_count, 1);
    assert_eq!(dots.points[0].x, 1);
    assert_eq!(p.textures.len(), 1);
    assert_eq!(p.textures[0].pixels, vec![9, 9, 9, 9]);
    assert_eq!(p.image_buffers.len(), 1);
    assert_eq!(p.image_buffers[0].texture_index, 0);
}

#[test]
fn packing_twice_yields_independent_equal_bundles() {
    let b = sample_bundle();
    let p1 = WgpuPackedBundle::new(&b);
    let p2 = WgpuPackedBundle::new(&b);
    // identical contents
    assert_eq!(
        p1.map_ref_buffers.as_ref().unwrap().vertices,
        p2.map_ref_buffers.as_ref().unwrap().vertices
    );
    assert_eq!(
        p1.map_ref_buffers.as_ref().unwrap().indices,
        p2.map_ref_buffers.as_ref().unwrap().indices
    );
    assert_eq!(
        p1.dot_buffers.as_ref().unwrap().point_count,
        p2.dot_buffers.as_ref().unwrap().point_count
    );
    // dropping one (and even the source bundle) leaves the other whole
    drop(p1);
    drop(b);
    let mesh = p2.map_ref_buffers.as_ref().unwrap();
    assert_eq!(mesh.vertices.len(), 4);
    assert_eq!(mesh.indices, vec![0, 1, 2, 0, 2, 3]);
    assert_eq!(p2.textures[0].width, 1);
}

#[test]
fn mutating_the_bundle_after_packing_changes_nothing_packed() {
    let mut b = sample_bundle();
    let p = WgpuPackedBundle::new(&b);
    b.add_polygon(&square(), Color::rgba(1, 1, 1, 1)).unwrap();
    assert_eq!(p.map_ref_buffers.as_ref().unwrap().vertices.len(), 4);
    assert_eq!(b.poly_mesh.vertices.len(), 8);
}
