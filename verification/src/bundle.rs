//! The render bundle: the mutable, backend-agnostic collection of drawing
//! data for one draw batch.
//!
//! Primitives enter through the methods below. Polygon-like primitives are
//! triangulated into the bundle's meshes; point markers bypass tessellation
//! and are appended as instance records, because marker counts can be large
//! enough that per-point triangulation would be prohibitive; raster images
//! are stored once in an image store and referenced by placements, so a
//! texture is uploaded once however many placements reuse it. A ring of
//! fewer than three points is a per-primitive decoding failure: the bundle
//! is left unchanged and an error is returned, never a panic.
//!
//! A polygon with interior rings (holes) is added ring by ring, each hole
//! wound opposite to its outer ring: under the non-zero winding fill rule
//! the hole's signed area subtracts from the outer ring's.

use vstd::prelude::*;

use crate::color::Color;
use crate::error::GalileoError;
use crate::mesh::{PointInstance, PolyMesh, PolyVertex};
use crate::tess::{fan_index_value, triangulate_ring, Point2};

verus! {

/// A decoded raster image: RGBA, 8 bits per channel, row-major.
#[derive(Clone, Debug)]
pub struct DecodedImage {
    pub width: u32,
    pub height: u32,
    pub pixels: Vec<u8>,
}

impl DecodedImage {
    /// Four bytes per pixel.
    pub open spec fn wf(&self) -> bool {
        self.pixels@.len() == 4 * (self.width as int) * (self.height as int)
    }

    /// Builds an image, checking that the pixel buffer matches the
    /// dimensions: four bytes per pixel, row-major.
    pub fn try_new(width: u32, height: u32, pixels: Vec<u8>) -> (r: Option<DecodedImage>)
        ensures
            r matches Some(img) ==> img == (DecodedImage { width, height, pixels }) && img.wf(),
            r is Some <==> pixels@.len() == 4 * (width as int) * (height as int),
    {
        proof {
            assert((4int * (width as int)) * (height as int) <= 0x40000000000000000)
                by (nonlinear_arith)
                requires
                    width <= 0x100000000,
                    height <= 0x100000000,
            ;
        }
        let expected: u128 = 4u128 * (width as u128) * (height as u128);
        if (pixels.len() as u128) == expected {
            proof {
                assert(4 * (width as int) * (height as int) == 4int * ((width as int) * (
                height as int))) by (nonlinear_arith);
            }
            Some(DecodedImage { width, height, pixels })
        } else {
            proof {
                assert(4 * (width as int) * (height as int) == 4int * ((width as int) * (
                height as int))) by (nonlinear_arith);
            }
            None
        }
    }
}

/// One corner of an image's destination quad: a position in map
/// coordinates and a texture coordinate, both fixed-point.
#[derive(Clone, Copy, Debug, PartialEq, Eq, Structural)]
pub struct ImageVertex {
    pub x: i32,
    pub y: i32,
    pub u: i32,
    pub v: i32,
}

/// A placement of an image-store entry at a destination quad.
#[derive(Clone, Copy, Debug, PartialEq, Eq, Structural)]
pub struct ImagePlacement {
    pub image_index: usize,
    pub q0: ImageVertex,
    pub q1: ImageVertex,
    pub q2: ImageVertex,
    pub q3: ImageVertex,
}

/// The polygon vertex a ring point becomes: position at z = 0, the paint
/// color, zero local uv and zero extra scalar.
pub open spec fn poly_vertex_of(p: Point2, color: Color) -> PolyVertex {
    PolyVertex { x: p.x, y: p.y, z: 0i32, color, u: 0i32, v: 0i32, extra: 0i32 }
}

/// The vertices a ring contributes to a mesh.
pub open spec fn ring_vertices_spec(ring: Seq<Point2>, color: Color) -> Seq<PolyVertex> {
    Seq::new(ring.len(), |i: int| poly_vertex_of(ring[i], color))
}

/// The total number of points over a sequence of rings.
pub open spec fn total_points(rings: Seq<Vec<Point2>>) -> int
    decreases rings.len(),
{
    if rings.len() == 0 {
        0
    } else {
        total_points(rings.drop_last()) + rings.last()@.len()
    }
}

/// Extending a prefix of rings by one ring adds that ring's points.
proof fn lemma_total_points_prefix(s: Seq<Vec<Point2>>, k: int)
    requires
        0 <= k < s.len(),
    ensures
        total_points(s.subrange(0, k + 1)) == total_points(s.subrange(0, k)) + s[k]@.len(),
{
    assert(s.subrange(0, k + 1).drop_last() =~= s.subrange(0, k));
    assert(s.subrange(0, k + 1).last() == s[k]);
}

/// The point total is never negative.
proof fn lemma_total_points_nonneg(s: Seq<Vec<Point2>>)
    ensures
        total_points(s) >= 0,
    decreases s.len(),
{
    if s.len() > 0 {
        lemma_total_points_nonneg(s.drop_last());
    }
}

/// A prefix of rings never holds more points than the whole sequence.
proof fn lemma_total_points_bounds(s: Seq<Vec<Point2>>, k: int)
    requires
        0 <= k <= s.len(),
    ensures
        0 <= total_points(s.subrange(0, k)) <= total_points(s),
        k < s.len() ==> total_points(s.subrange(0, k)) + s[k]@.len() <= total_points(s),
    decreases s.len() - k,
{
    lemma_total_points_nonneg(s.subrange(0, k));
    if k == s.len() {
        assert(s.subrange(0, k) =~= s);
    } else {
        lemma_total_points_prefix(s, k);
        lemma_total_points_bounds(s, k + 1);
    }
}

/// The index list a ring's fan contributes to a mesh that already held
/// `base` vertices: the fan values, each offset by `base`.
pub open spec fn fan_indices_seq(base: int, n: int) -> Seq<u32>
    recommends
        n >= 3,
{
    Seq::new((3 * (n - 2)) as nat, |j: int| (base + fan_index_value(j)) as u32)
}

/// The vertices a sequence of hole rings contributes, in ring order.
pub open spec fn holes_vertices_spec(holes: Seq<Vec<Point2>>, color: Color) -> Seq<PolyVertex>
    decreases holes.len(),
{
    if holes.len() == 0 {
        Seq::empty()
    } else {
        holes_vertices_spec(holes.drop_last(), color) + ring_vertices_spec(
            holes.last()@,
            color,
        )
    }
}

/// The index lists a sequence of hole rings contributes, each ring's fan
/// offset by `base` plus the points of the rings before it.
pub open spec fn holes_indices_spec(holes: Seq<Vec<Point2>>, base: int) -> Seq<u32>
    decreases holes.len(),
{
    if holes.len() == 0 {
        Seq::empty()
    } else {
        holes_indices_spec(holes.drop_last(), base) + fan_indices_seq(
            base + total_points(holes.drop_last()),
            holes.last()@.len() as int,
        )
    }
}

/// Extending a prefix of holes by one ring appends that ring's vertices.
proof fn lemma_holes_vertices_prefix(s: Seq<Vec<Point2>>, color: Color, k: int)
    requires
        0 <= k < s.len(),
    ensures
        holes_vertices_spec(s.subrange(0, k + 1), color) == holes_vertices_spec(
            s.subrange(0, k),
            color,
        ) + ring_vertices_spec(s[k]@, color),
{
    assert(s.subrange(0, k + 1).drop_last() =~= s.subrange(0, k));
    assert(s.subrange(0, k + 1).last() == s[k]);
}

/// Extending a prefix of holes by one ring appends that ring's offset fan.
proof fn lemma_holes_indices_prefix(s: Seq<Vec<Point2>>, base: int, k: int)
    requires
        0 <= k < s.len(),
    ensures
        holes_indices_spec(s.subrange(0, k + 1), base) == holes_indices_spec(
            s.subrange(0, k),
            base,
        ) + fan_indices_seq(base + total_points(s.subrange(0, k)), s[k]@.len() as int),
{
    assert(s.subrange(0, k + 1).drop_last() =~= s.subrange(0, k));
    assert(s.subrange(0, k + 1).last() == s[k]);
}

/// The holes' vertex contribution holds exactly their total point count.
proof fn lemma_holes_vertices_len(s: Seq<Vec<Point2>>, color: Color)
    ensures
        holes_vertices_spec(s, color).len() == total_points(s),
    decreases s.len(),
{
    if s.len() > 0 {
        lemma_holes_vertices_len(s.drop_last(), color);
    }
}

/// The holes' index contribution holds three entries per fan triangle:
/// three times the point total, short of six per ring.
proof fn lemma_holes_indices_len(s: Seq<Vec<Point2>>, base: int)
    requires
        forall|k: int| 0 <= k < s.len() ==> (#[trigger] s[k])@.len() >= 3,
    ensures
        holes_indices_spec(s, base).len() == 3 * total_points(s) - 6 * s.len(),
    decreases s.len(),
{
    if s.len() > 0 {
        assert(forall|k: int|
            0 <= k < s.drop_last().len() ==> (#[trigger] s.drop_last()[k])@.len() >= 3);
        lemma_holes_indices_len(s.drop_last(), base);
        assert(s.last()@.len() >= 3);
    }
}

/// A mutable bundle of tessellated and instanced drawing data for one
/// draw batch.
#[derive(Clone, Debug)]
pub struct RenderBundle {
    /// Triangulated mesh for filled polygons and contours.
    pub poly_mesh: PolyMesh,
    /// Optional clip-area mesh, routed to the stencil buffer by the
    /// compositor instead of the color buffer.
    pub clip_area: Option<PolyMesh>,
    /// Point markers, drawn by instancing.
    pub points: Vec<PointInstance>,
    /// Screen-referenced mesh for content that keeps a fixed pixel size and
    /// orientation.
    pub screen_ref: PolyMesh,
    /// Decoded raster images, one entry per distinct image.
    pub image_store: Vec<DecodedImage>,
    /// Placements referencing the image store.
    pub images: Vec<ImagePlacement>,
}

impl RenderBundle {
    /// The bundle invariant: each mesh is well formed, every image
    /// placement references a store entry, every store entry is well
    /// formed, and the instance count fits a 32-bit draw call.
    pub open spec fn wf(&self) -> bool {
        &&& self.poly_mesh.wf()
        &&& self.clip_area matches Some(m) ==> m.wf()
        &&& self.screen_ref.wf()
        &&& forall|i: int|
            0 <= i < self.images@.len() ==> (#[trigger] self.images@[i]).image_index
                < self.image_store@.len()
        &&& forall|i: int| 0 <= i < self.image_store@.len() ==> (#[trigger] self.image_store@[i]).wf()
        &&& self.points@.len() <= u32::MAX
    }

    /// A bundle with nothing in it: no mesh data, no clip area, no
    /// points, no screen-referenced geometry, no images.
    pub open spec fn is_empty(&self) -> bool {
        &&& self.poly_mesh.vertices@.len() == 0
        &&& self.poly_mesh.indices@.len() == 0
        &&& self.clip_area is None
        &&& self.points@.len() == 0
        &&& self.screen_ref.vertices@.len() == 0
        &&& self.screen_ref.indices@.len() == 0
        &&& self.image_store@.len() == 0
        &&& self.images@.len() == 0
    }

    /// An empty bundle.
    pub fn new() -> (b: RenderBundle)
        ensures
            b.wf(),
            b.is_empty(),
            b.poly_mesh.vertices@.len() == 0,
            b.poly_mesh.indices@.len() == 0,
            b.clip_area is None,
            b.points@.len() == 0,
            b.screen_ref.vertices@.len() == 0,
            b.screen_ref.indices@.len() == 0,
            b.image_store@.len() == 0,
            b.images@.len() == 0,
    {
        RenderBundle {
            poly_mesh: PolyMesh::new(),
            clip_area: None,
            points: Vec::new(),
            screen_ref: PolyMesh::new(),
            image_store: Vec::new(),
            images: Vec::new(),
        }
    }

    /// Adds one polygon ring to the fill mesh. A ring of fewer than three
    /// points is rejected and the bundle left unchanged; otherwise the
    /// ring's points are appended as vertices and a triangle fan over them
    /// is appended to the index list.
    pub fn add_polygon(&mut self, ring: &Vec<Point2>, color: Color) -> (r: Result<
        (),
        GalileoError,
    >)
        requires
            old(self).wf(),
            ring@.len() <= u32::MAX,
            old(self).poly_mesh.vertices@.len() + ring@.len() <= u32::MAX,
            old(self).poly_mesh.indices@.len() + 3 * ring@.len() <= u32::MAX,
        ensures
            final(self).wf(),
            r is Err <==> ring@.len() < 3,
            r is Err ==> *final(self) == *old(self),
            r matches Err(e) ==> e is Decoding,
            r is Ok ==> final(self).poly_mesh.vertices@ == old(self).poly_mesh.vertices@
                + ring_vertices_spec(ring@, color),
            r is Ok ==> final(self).poly_mesh.indices@.len() == old(self).poly_mesh.indices@.len()
                + 3 * (ring@.len() - 2),
            r is Ok ==> forall|j: int|
                old(self).poly_mesh.indices@.len() <= j < final(self).poly_mesh.indices@.len()
                    ==> old(self).poly_mesh.vertices@.len()
                    <= #[trigger] final(self).poly_mesh.indices@[j]
                    && (final(self).poly_mesh.indices@[j] as int)
                    < final(self).poly_mesh.vertices@.len(),
            r is Ok ==> forall|j: int|
                old(self).poly_mesh.indices@.len() <= j < final(self).poly_mesh.indices@.len()
                    ==> #[trigger] final(self).poly_mesh.indices@[j]
                    == old(self).poly_mesh.vertices@.len() + fan_index_value(
                    j - old(self).poly_mesh.indices@.len(),
                ),
            r is Ok ==> final(self).poly_mesh.indices@ == old(self).poly_mesh.indices@
                + fan_indices_seq(
                old(self).poly_mesh.vertices@.len() as int,
                ring@.len() as int,
            ),
            r is Ok ==> forall|j: int|
                0 <= j < old(self).poly_mesh.indices@.len() ==> final(self).poly_mesh.indices@[j]
                    == old(self).poly_mesh.indices@[j],
            final(self).clip_area == old(self).clip_area,
            final(self).points == old(self).points,
            final(self).screen_ref == old(self).screen_ref,
            final(self).image_store == old(self).image_store,
            final(self).images == old(self).images,
    {
        append_ring_to_mesh(&mut self.poly_mesh, ring, color)
    }

    /// Adds a polygon with interior rings in one call: the outline first,
    /// then each hole, wound opposite to the outline so its signed area
    /// subtracts under the non-zero winding rule. The whole primitive is
    /// validated first: if the outline or any hole has fewer than three
    /// points, nothing is added and the primitive is reported as a
    /// decoding failure.
    pub fn add_polygon_with_holes(
        &mut self,
        outline: &Vec<Point2>,
        holes: &Vec<Vec<Point2>>,
        color: Color,
    ) -> (r: Result<(), GalileoError>)
        requires
            old(self).wf(),
            outline@.len() <= u32::MAX,
            forall|h: int| 0 <= h < holes@.len() ==> (#[trigger] holes@[h])@.len() <= u32::MAX,
            old(self).poly_mesh.vertices@.len() + outline@.len() + total_points(holes@)
                <= u32::MAX,
            old(self).poly_mesh.indices@.len() + 3 * outline@.len() + 3 * total_points(holes@)
                <= u32::MAX,
        ensures
            final(self).wf(),
            r is Err <==> outline@.len() < 3 || exists|h: int|
                0 <= h < holes@.len() && (#[trigger] holes@[h])@.len() < 3,
            r is Err ==> *final(self) == *old(self),
            r matches Err(e) ==> e is Decoding,
            r is Ok ==> final(self).poly_mesh.vertices@.len() == old(
                self,
            ).poly_mesh.vertices@.len() + outline@.len() + total_points(holes@),
            r is Ok ==> final(self).poly_mesh.vertices@ == old(self).poly_mesh.vertices@
                + ring_vertices_spec(outline@, color) + holes_vertices_spec(holes@, color),
            r is Ok ==> final(self).poly_mesh.indices@ == old(self).poly_mesh.indices@
                + fan_indices_seq(
                old(self).poly_mesh.vertices@.len() as int,
                outline@.len() as int,
            ) + holes_indices_spec(
                holes@,
                old(self).poly_mesh.vertices@.len() + outline@.len() as int,
            ),
            final(self).clip_area == old(self).clip_area,
            final(self).points == old(self).points,
            final(self).screen_ref == old(self).screen_ref,
            final(self).image_store == old(self).image_store,
            final(self).images == old(self).images,
    {
        if outline.len() < 3 {
            return Err(
                GalileoError::Decoding("polygon outline has fewer than three points".to_string()),
            );
        }
        let hole_count = holes.len();
        let mut h: usize = 0;
        while h < hole_count
            invariant
                hole_count == holes@.len(),
                0 <= h <= hole_count,
                forall|k: int| 0 <= k < h ==> (#[trigger] holes@[k])@.len() >= 3,
                *self == *old(self),
                old(self).wf(),
            decreases hole_count - h,
        {
            if holes[h].len() < 3 {
                return Err(
                    GalileoError::Decoding("polygon hole has fewer than three points".to_string()),
                );
            }
            h = h + 1;
        }
        proof {
            lemma_total_points_nonneg(holes@);
        }
        let r = self.add_polygon(outline, color);
        proof {
            assert(r is Ok);
            assert(holes@.subrange(0, 0) =~= Seq::<Vec<Point2>>::empty());
        }
        let mut h2: usize = 0;
        while h2 < hole_count
            invariant
                hole_count == holes@.len(),
                0 <= h2 <= hole_count,
                forall|k: int| 0 <= k < hole_count ==> (#[trigger] holes@[k])@.len() >= 3,
                forall|k: int| 0 <= k < hole_count ==> (#[trigger] holes@[k])@.len() <= u32::MAX,
                self.wf(),
                3 <= outline@.len(),
                self.poly_mesh.vertices@.len() == old(self).poly_mesh.vertices@.len()
                    + outline@.len() + total_points(holes@.subrange(0, h2 as int)),
                self.poly_mesh.indices@.len() <= old(self).poly_mesh.indices@.len() + 3
                    * outline@.len() + 3 * total_points(holes@.subrange(0, h2 as int)),
                self.poly_mesh.vertices@ == old(self).poly_mesh.vertices@ + ring_vertices_spec(
                    outline@,
                    color,
                ) + holes_vertices_spec(holes@.subrange(0, h2 as int), color),
                self.poly_mesh.indices@ == old(self).poly_mesh.indices@ + fan_indices_seq(
                    old(self).poly_mesh.vertices@.len() as int,
                    outline@.len() as int,
                ) + holes_indices_spec(
                    holes@.subrange(0, h2 as int),
                    old(self).poly_mesh.vertices@.len() + outline@.len() as int,
                ),
                old(self).poly_mesh.vertices@.len() + outline@.len() + total_points(holes@)
                    <= u32::MAX,
                old(self).poly_mesh.indices@.len() + 3 * outline@.len() + 3 * total_points(
                    holes@,
                ) <= u32::MAX,
                self.clip_area == old(self).clip_area,
                self.points == old(self).points,
                self.screen_ref == old(self).screen_ref,
                self.image_store == old(self).image_store,
                self.images == old(self).images,
            decreases hole_count - h2,
        {
            proof {
                lemma_total_points_prefix(holes@, h2 as int);
                lemma_total_points_bounds(holes@, h2 as int);
            }
            let ghost base = old(self).poly_mesh.vertices@.len() + outline@.len();
            let hr = self.add_polygon(&holes[h2], color);
            proof {
                assert(hr is Ok);
                lemma_holes_vertices_prefix(holes@, color, h2 as int);
                lemma_holes_indices_prefix(holes@, base as int, h2 as int);
                assert(self.poly_mesh.vertices@ =~= old(self).poly_mesh.vertices@
                    + ring_vertices_spec(outline@, color) + holes_vertices_spec(
                    holes@.subrange(0, h2 as int + 1),
                    color,
                ));
                assert(self.poly_mesh.indices@ =~= old(self).poly_mesh.indices@
                    + fan_indices_seq(
                    old(self).poly_mesh.vertices@.len() as int,
                    outline@.len() as int,
                ) + holes_indices_spec(holes@.subrange(0, h2 as int + 1), base as int));
            }
            h2 = h2 + 1;
        }
        proof {
            assert(holes@.subrange(0, hole_count as int) =~= holes@);
        }
        Ok(())
    }

    /// Adds one polygon ring to the screen-referenced mesh; such content is
    /// tessellated like a polygon but flagged for the screen-reference draw
    /// path, so the compositor can keep it upright and at a fixed pixel
    /// size. Rejects rings of fewer than three points.
    pub fn add_screen_ref_polygon(&mut self, ring: &Vec<Point2>, color: Color) -> (r: Result<
        (),
        GalileoError,
    >)
        requires
            old(self).wf(),
            ring@.len() <= u32::MAX,
            old(self).screen_ref.vertices@.len() + ring@.len() <= u32::MAX,
            old(self).screen_ref.indices@.len() + 3 * ring@.len() <= u32::MAX,
        ensures
            final(self).wf(),
            r is Err <==> ring@.len() < 3,
            r is Err ==> *final(self) == *old(self),
            r matches Err(e) ==> e is Decoding,
            r is Ok ==> final(self).screen_ref.vertices@ == old(self).screen_ref.vertices@
                + ring_vertices_spec(ring@, color),
            r is Ok ==> final(self).screen_ref.indices@.len() == old(self).screen_ref.indices@.len()
                + 3 * (ring@.len() - 2),
            final(self).poly_mesh == old(self).poly_mesh,
            final(self).clip_area == old(self).clip_area,
            final(self).points == old(self).points,
            final(self).image_store == old(self).image_store,
            final(self).images == old(self).images,
    {
        append_ring_to_mesh(&mut self.screen_ref, ring, color)
    }

    /// Sets the clip-area polygon: tessellated exactly like a fill polygon
    /// but stored separately, so the compositor can route it to the stencil
    /// buffer. Replaces any earlier clip area. Rejects rings of fewer than
    /// three points, leaving the bundle unchanged.
    pub fn set_clip_polygon(&mut self, ring: &Vec<Point2>) -> (r: Result<(), GalileoError>)
        requires
            old(self).wf(),
            ring@.len() <= u32::MAX,
            3 * ring@.len() <= u32::MAX,
        ensures
            final(self).wf(),
            r is Err <==> ring@.len() < 3,
            r is Err ==> *final(self) == *old(self),
            r matches Err(e) ==> e is Decoding,
            r is Ok ==> (final(self).clip_area matches Some(m) && m.vertices@
                == ring_vertices_spec(ring@, (Color { r: 0u8, g: 0u8, b: 0u8, a: 0u8 }))
                && m.indices@.len() == 3 * (ring@.len() - 2) && (forall|j: int|
                0 <= j < m.indices@.len() ==> #[trigger] m.indices@[j] == fan_index_value(j))),
            final(self).poly_mesh == old(self).poly_mesh,
            final(self).points == old(self).points,
            final(self).screen_ref == old(self).screen_ref,
            final(self).image_store == old(self).image_store,
            final(self).images == old(self).images,
    {
        if ring.len() < 3 {
            return Err(GalileoError::Decoding("clip ring has fewer than three points".to_string()));
        }
        let mut mesh = PolyMesh::new();
        let r = append_ring_to_mesh(&mut mesh, ring, Color::rgba(0, 0, 0, 0));
        self.clip_area = Some(mesh);
        r
    }

    /// Appends one point marker as an instance record; no tessellation.
    pub fn add_point(&mut self, p: PointInstance)
        requires
            old(self).wf(),
            old(self).points@.len() < u32::MAX,
        ensures
            final(self).wf(),
            final(self).points@ == old(self).points@.push(p),
            final(self).poly_mesh == old(self).poly_mesh,
            final(self).clip_area == old(self).clip_area,
            final(self).screen_ref == old(self).screen_ref,
            final(self).image_store == old(self).image_store,
            final(self).images == old(self).images,
    {
        self.points.push(p);
    }

    /// Appends a batch of point markers as instance records.
    pub fn add_points(&mut self, pts: &Vec<PointInstance>)
        requires
            old(self).wf(),
            old(self).points@.len() + pts@.len() <= u32::MAX,
        ensures
            final(self).wf(),
            final(self).points@ == old(self).points@ + pts@,
            final(self).poly_mesh == old(self).poly_mesh,
            final(self).clip_area == old(self).clip_area,
            final(self).screen_ref == old(self).screen_ref,
            final(self).image_store == old(self).image_store,
            final(self).images == old(self).images,
    {
        let n = pts.len();
        let mut i: usize = 0;
        while i < n
            invariant
                n == pts@.len(),
                0 <= i <= n,
                old(self).points@.len() + pts@.len() <= u32::MAX,
                self.points@ == old(self).points@ + pts@.subrange(0, i as int),
                self.poly_mesh == old(self).poly_mesh,
                self.clip_area == old(self).clip_area,
                self.screen_ref == old(self).screen_ref,
                self.image_store == old(self).image_store,
                self.images == old(self).images,
                old(self).wf(),
            decreases n - i,
        {
            self.points.push(pts[i]);
            proof {
                assert(pts@.subrange(0, i + 1) =~= pts@.subrange(0, i as int).push(pts@[i as int]));
            }
            i = i + 1;
        }
        proof {
            assert(pts@.subrange(0, n as int) =~= pts@);
        }
    }

    /// Adds a decoded image to the image store together with one placement,
    /// and returns the store index, under which further placements can
    /// reuse the texture.
    pub fn add_image(
        &mut self,
        image: DecodedImage,
        q0: ImageVertex,
        q1: ImageVertex,
        q2: ImageVertex,
        q3: ImageVertex,
    ) -> (idx: usize)
        requires
            old(self).wf(),
            image.wf(),
            old(self).image_store@.len() < usize::MAX,
            old(self).images@.len() < usize::MAX,
        ensures
            final(self).wf(),
            idx == old(self).image_store@.len(),
            final(self).image_store@ == old(self).image_store@.push(image),
            final(self).images@ == old(self).images@.push(
                ImagePlacement { image_index: idx, q0, q1, q2, q3 },
            ),
            final(self).poly_mesh == old(self).poly_mesh,
            final(self).clip_area == old(self).clip_area,
            final(self).points == old(self).points,
            final(self).screen_ref == old(self).screen_ref,
    {
        let idx = self.image_store.len();
        self.image_store.push(image);
        self.images.push(ImagePlacement { image_index: idx, q0, q1, q2, q3 });
        idx
    }

    /// Adds one more placement of an already stored image. Rejects an index
    /// that references no store entry.
    pub fn add_image_placement(
        &mut self,
        image_index: usize,
        q0: ImageVertex,
        q1: ImageVertex,
        q2: ImageVertex,
        q3: ImageVertex,
    ) -> (r: Result<(), GalileoError>)
        requires
            old(self).wf(),
            old(self).images@.len() < usize::MAX,
        ensures
            final(self).wf(),
            r is Err <==> image_index >= old(self).image_store@.len(),
            r is Err ==> *final(self) == *old(self),
            r matches Err(e) ==> e == GalileoError::NotFound,
            r is Ok ==> final(self).images@ == old(self).images@.push(
                ImagePlacement { image_index, q0, q1, q2, q3 },
            ),
            final(self).image_store == old(self).image_store,
            final(self).poly_mesh == old(self).poly_mesh,
            final(self).clip_area == old(self).clip_area,
            final(self).points == old(self).points,
            final(self).screen_ref == old(self).screen_ref,
    {
        if image_index >= self.image_store.len() {
            return Err(GalileoError::NotFound);
        }
        self.images.push(ImagePlacement { image_index, q0, q1, q2, q3 });
        Ok(())
    }
}

/// Appends one ring to a mesh: its points as vertices, its triangle fan as
/// indices offset by the vertex count the mesh had before.
fn append_ring_to_mesh(mesh: &mut PolyMesh, ring: &Vec<Point2>, color: Color) -> (r: Result<
    (),
    GalileoError,
>)
    requires
        old(mesh).wf(),
        ring@.len() <= u32::MAX,
        old(mesh).vertices@.len() + ring@.len() <= u32::MAX,
        old(mesh).indices@.len() + 3 * ring@.len() <= u32::MAX,
    ensures
        final(mesh).wf(),
        r is Err <==> ring@.len() < 3,
        r is Err ==> *final(mesh) == *old(mesh),
        r matches Err(e) ==> e is Decoding,
        r is Ok ==> final(mesh).vertices@ == old(mesh).vertices@ + ring_vertices_spec(
            ring@,
            color,
        ),
        r is Ok ==> final(mesh).indices@.len() == old(mesh).indices@.len() + 3 * (ring@.len() - 2),
        r is Ok ==> forall|j: int|
            old(mesh).indices@.len() <= j < final(mesh).indices@.len()
                ==> old(mesh).vertices@.len() <= #[trigger] final(mesh).indices@[j]
                && (final(mesh).indices@[j] as int) < final(mesh).vertices@.len(),
        r is Ok ==> forall|j: int|
            old(mesh).indices@.len() <= j < final(mesh).indices@.len()
                ==> #[trigger] final(mesh).indices@[j] == old(mesh).vertices@.len()
                + fan_index_value(j - old(mesh).indices@.len()),
        r is Ok ==> forall|j: int|
            0 <= j < old(mesh).indices@.len() ==> final(mesh).indices@[j] == old(mesh).indices@[j],
        r is Ok ==> final(mesh).indices@ == old(mesh).indices@ + fan_indices_seq(
            old(mesh).vertices@.len() as int,
            ring@.len() as int,
        ),
{
    if ring.len() < 3 {
        return Err(GalileoError::Decoding("polygon ring has fewer than three points".to_string()));
    }
    let base = mesh.vertices.len() as u32;
    let n = ring.len();
    let mut i: usize = 0;
    while i < n
        invariant
            n == ring@.len(),
            0 <= i <= n,
            old(mesh).vertices@.len() + ring@.len() <= u32::MAX,
            mesh.vertices@ == old(mesh).vertices@ + ring_vertices_spec(ring@, color).subrange(
                0,
                i as int,
            ),
            mesh.indices == old(mesh).indices,
        decreases n - i,
    {
        let p = ring[i];
        mesh.vertices.push(PolyVertex { x: p.x, y: p.y, z: 0, color, u: 0, v: 0, extra: 0 });
        proof {
            assert(ring_vertices_spec(ring@, color).subrange(0, i + 1) =~= ring_vertices_spec(
                ring@,
                color,
            ).subrange(0, i as int).push(poly_vertex_of(ring@[i as int], color)));
        }
        i = i + 1;
    }
    proof {
        assert(ring_vertices_spec(ring@, color).subrange(0, n as int) =~= ring_vertices_spec(
            ring@,
            color,
        ));
    }
    let fan = triangulate_ring(ring);
    let m = fan.len();
    let mut j: usize = 0;
    while j < m
        invariant
            m == fan@.len(),
            0 <= j <= m,
            base == old(mesh).vertices@.len(),
            mesh.vertices@.len() == old(mesh).vertices@.len() + ring@.len(),
            3 <= ring@.len() <= u32::MAX,
            old(mesh).vertices@.len() + ring@.len() <= u32::MAX,
            old(mesh).indices@.len() + 3 * ring@.len() <= u32::MAX,
            m == 3 * (ring@.len() - 2),
            forall|k: int| 0 <= k < m ==> (fan@[k] as int) < ring@.len(),
            old(mesh).wf(),
            mesh.indices@.len() == old(mesh).indices@.len() + j,
            forall|k: int|
                0 <= k < old(mesh).indices@.len() ==> #[trigger] mesh.indices@[k] == old(
                    mesh,
                ).indices@[k],
            forall|k: int|
                old(mesh).indices@.len() <= k < mesh.indices@.len() ==> old(
                    mesh,
                ).vertices@.len() <= (#[trigger] mesh.indices@[k] as int) < old(
                    mesh,
                ).vertices@.len() + ring@.len(),
            forall|k: int|
                old(mesh).indices@.len() <= k < mesh.indices@.len() ==> #[trigger] mesh.indices@[k]
                    == old(mesh).vertices@.len() + fan_index_value(k - old(mesh).indices@.len()),
            forall|k: int| 0 <= k < m ==> #[trigger] fan@[k] == fan_index_value(k),
            mesh.vertices@ == old(mesh).vertices@ + ring_vertices_spec(ring@, color),
        decreases m - j,
    {
        let v = base + fan[j];
        mesh.indices.push(v);
        j = j + 1;
    }
    proof {
        let base_i = old(mesh).vertices@.len() as int;
        let expect = old(mesh).indices@ + fan_indices_seq(base_i, ring@.len() as int);
        assert(mesh.indices@.len() == expect.len());
        assert forall|k: int| 0 <= k < mesh.indices@.len() implies mesh.indices@[k] == expect[k] by {
            if k < old(mesh).indices@.len() {
                assert(mesh.indices@[k] == old(mesh).indices@[k]);
            } else {
                let off = k - old(mesh).indices@.len();
                assert(mesh.indices@[k] == base_i + fan_index_value(off));
                assert(expect[k] == fan_indices_seq(base_i, ring@.len() as int)[off]);
                assert(0 <= base_i + fan_index_value(off) <= u32::MAX);
            }
        }
        assert(mesh.indices@ =~= expect);
    }
    Ok(())
}

} // verus!
