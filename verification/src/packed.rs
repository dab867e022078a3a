//! The packed bundle: an immutable compilation of a render bundle.
//!
//! Packing snapshots every non-empty collection of a completed render
//! bundle into device-ready buffers; an empty collection produces no
//! buffer at all (`None`), never a zero-length allocation, because backend
//! APIs differ on whether zero-length buffers are legal. A packed bundle is
//! never mutated afterward: replacing content means building a new one and
//! swapping the handle. Each packed bundle owns its buffers outright and
//! shares nothing mutable with the bundle it came from or with any other
//! packed bundle, so dropping one cannot affect another.
//!
//! The unverified shell uploads these buffers to the GPU; a device
//! allocation failure there surfaces as a recoverable per-bundle error.

use vstd::prelude::*;

use crate::bundle::{DecodedImage, ImagePlacement, ImageVertex, RenderBundle};
use crate::mesh::{PointInstance, PolyMesh, PolyVertex};

verus! {

/// Device-ready vertex and index buffers of one mesh, with the index count
/// the draw call takes.
#[derive(Clone, Debug)]
pub struct WgpuPolygonBuffers {
    pub vertices: Vec<PolyVertex>,
    pub indices: Vec<u32>,
    pub index_count: u32,
}

/// Device-ready instance buffer of the point markers.
#[derive(Clone, Debug)]
pub struct WgpuDotBuffers {
    pub points: Vec<PointInstance>,
    pub point_count: u32,
}

/// One image placement, referencing an uploaded texture by index.
#[derive(Clone, Copy, Debug, PartialEq, Eq, Structural)]
pub struct WgpuImage {
    pub texture_index: usize,
    pub q0: ImageVertex,
    pub q1: ImageVertex,
    pub q2: ImageVertex,
    pub q3: ImageVertex,
}

/// The immutable, device-ready compilation of a render bundle.
#[derive(Clone, Debug)]
pub struct WgpuPackedBundle {
    /// Stencil-routed clip-area buffers, if the bundle had a non-empty
    /// clip-area mesh.
    pub clip_area_buffers: Option<WgpuPolygonBuffers>,
    /// Buffers of the map-referenced fill mesh, if non-empty.
    pub map_ref_buffers: Option<WgpuPolygonBuffers>,
    /// Buffers of the screen-referenced mesh, if non-empty.
    pub screen_ref_buffers: Option<WgpuPolygonBuffers>,
    /// The point instance buffer, if the bundle had any points.
    pub dot_buffers: Option<WgpuDotBuffers>,
    /// One texture per distinct image-store entry.
    pub textures: Vec<DecodedImage>,
    /// Image placements referencing the textures.
    pub image_buffers: Vec<WgpuImage>,
}

/// Internal consistency of polygon buffers: the index count is the index
/// list's length and every index references a vertex.
pub open spec fn poly_buffers_wf(b: WgpuPolygonBuffers) -> bool {
    &&& b.index_count == b.indices@.len()
    &&& forall|i: int| 0 <= i < b.indices@.len() ==> (b.indices@[i] as int) < b.vertices@.len()
}

/// How packed polygon buffers relate to the mesh they were packed from:
/// absent exactly when the mesh has no vertices, otherwise an exact copy.
pub open spec fn poly_buffers_match(m: PolyMesh, b: Option<WgpuPolygonBuffers>) -> bool {
    if m.vertices@.len() == 0 {
        b is None
    } else {
        &&& b matches Some(pb)
        &&& pb.vertices@ == m.vertices@
        &&& pb.indices@ == m.indices@
        &&& pb.index_count == m.indices@.len()
    }
}

/// Two decoded images with the same dimensions and pixel bytes.
pub open spec fn image_view_eq(a: DecodedImage, b: DecodedImage) -> bool {
    a.width == b.width && a.height == b.height && a.pixels@ == b.pixels@
}

/// The image placement a packed image buffer must carry.
pub open spec fn wgpu_image_of(p: ImagePlacement) -> WgpuImage {
    WgpuImage { texture_index: p.image_index, q0: p.q0, q1: p.q1, q2: p.q2, q3: p.q3 }
}

/// The full relation between a render bundle and its packed form: every
/// non-empty collection is copied exactly, every empty one is absent.
pub open spec fn packed_spec(b: RenderBundle, p: WgpuPackedBundle) -> bool {
    &&& poly_buffers_match(b.poly_mesh, p.map_ref_buffers)
    &&& match b.clip_area {
        Option::None => p.clip_area_buffers is None,
        Option::Some(m) => poly_buffers_match(m, p.clip_area_buffers),
    }
    &&& poly_buffers_match(b.screen_ref, p.screen_ref_buffers)
    &&& if b.points@.len() == 0 {
        p.dot_buffers is None
    } else {
        &&& p.dot_buffers matches Some(d)
        &&& d.points@ == b.points@
        &&& d.point_count == b.points@.len()
    }
    &&& p.textures@.len() == b.image_store@.len()
    &&& forall|i: int|
        0 <= i < b.image_store@.len() ==> image_view_eq(
            #[trigger] p.textures@[i],
            b.image_store@[i],
        )
    &&& p.image_buffers@.len() == b.images@.len()
    &&& forall|i: int|
        0 <= i < b.images@.len() ==> #[trigger] p.image_buffers@[i] == wgpu_image_of(b.images@[i])
}

impl WgpuPackedBundle {
    /// Internal consistency of a packed bundle: each present buffer's count
    /// matches its contents and every placement references a texture.
    pub open spec fn wf(&self) -> bool {
        &&& self.clip_area_buffers matches Some(b) ==> poly_buffers_wf(b)
        &&& self.map_ref_buffers matches Some(b) ==> poly_buffers_wf(b)
        &&& self.screen_ref_buffers matches Some(b) ==> poly_buffers_wf(b)
        &&& self.dot_buffers matches Some(d) ==> d.point_count == d.points@.len()
        &&& forall|i: int|
            0 <= i < self.image_buffers@.len() ==> (
            #[trigger] self.image_buffers@[i]).texture_index < self.textures@.len()
    }

    /// Packs a completed render bundle. The result is an exact snapshot:
    /// each non-empty mesh, the point list and the image store are copied
    /// into buffers of their own; empty collections produce `None`. Packing
    /// the same bundle again yields an independent, identical snapshot.
    pub fn new(bundle: &RenderBundle) -> (p: WgpuPackedBundle)
        requires
            bundle.wf(),
        ensures
            packed_spec(*bundle, p),
            p.wf(),
    {
        let clip_area_buffers = match &bundle.clip_area {
            Some(m) => pack_mesh(m),
            None => None,
        };
        let map_ref_buffers = pack_mesh(&bundle.poly_mesh);
        let screen_ref_buffers = pack_mesh(&bundle.screen_ref);
        let dot_buffers = if bundle.points.len() == 0 {
            None
        } else {
            let pts = copy_vec(&bundle.points);
            let count = pts.len() as u32;
            Some(WgpuDotBuffers { points: pts, point_count: count })
        };
        let textures = copy_images(&bundle.image_store);
        let image_buffers = build_image_buffers(&bundle.images);
        WgpuPackedBundle {
            clip_area_buffers,
            map_ref_buffers,
            screen_ref_buffers,
            dot_buffers,
            textures,
            image_buffers,
        }
    }
}

/// Field-by-field content equality of two packed bundles.
pub open spec fn packed_view_eq(p1: WgpuPackedBundle, p2: WgpuPackedBundle) -> bool {
    &&& opt_poly_view_eq(p1.clip_area_buffers, p2.clip_area_buffers)
    &&& opt_poly_view_eq(p1.map_ref_buffers, p2.map_ref_buffers)
    &&& opt_poly_view_eq(p1.screen_ref_buffers, p2.screen_ref_buffers)
    &&& match (p1.dot_buffers, p2.dot_buffers) {
        (Option::None, Option::None) => true,
        (Option::Some(a), Option::Some(b)) => a.points@ == b.points@ && a.point_count
            == b.point_count,
        _ => false,
    }
    &&& p1.textures@.len() == p2.textures@.len()
    &&& forall|i: int|
        0 <= i < p1.textures@.len() ==> image_view_eq(
            #[trigger] p1.textures@[i],
            p2.textures@[i],
        )
    &&& p1.image_buffers@ == p2.image_buffers@
}

/// Content equality of two optional polygon buffers.
pub open spec fn opt_poly_view_eq(
    a: Option<WgpuPolygonBuffers>,
    b: Option<WgpuPolygonBuffers>,
) -> bool {
    match (a, b) {
        (Option::None, Option::None) => true,
        (Option::Some(x), Option::Some(y)) => x.vertices@ == y.vertices@ && x.indices@
            == y.indices@ && x.index_count == y.index_count,
        _ => false,
    }
}

/// Packing is a function of the bundle alone: two packings of the same
/// bundle have identical buffer contents. Together with exclusive
/// ownership of every buffer, this makes the two packed bundles fully
/// independent: dropping one leaves the other usable and unchanged.
pub proof fn lemma_pack_deterministic(
    b: RenderBundle,
    p1: WgpuPackedBundle,
    p2: WgpuPackedBundle,
)
    requires
        packed_spec(b, p1),
        packed_spec(b, p2),
    ensures
        packed_view_eq(p1, p2),
{
    assert(p1.image_buffers@ =~= p2.image_buffers@);
}

/// Copies a vector of plain values, element by element.
fn copy_vec<T: Copy>(v: &Vec<T>) -> (r: Vec<T>)
    ensures
        r@ == v@,
{
    let n = v.len();
    let mut r: Vec<T> = Vec::new();
    let mut i: usize = 0;
    while i < n
        invariant
            n == v@.len(),
            0 <= i <= n,
            r@ == v@.subrange(0, i as int),
        decreases n - i,
    {
        r.push(v[i]);
        proof {
            assert(v@.subrange(0, i + 1) =~= v@.subrange(0, i as int).push(v@[i as int]));
        }
        i = i + 1;
    }
    proof {
        assert(v@.subrange(0, n as int) =~= v@);
    }
    r
}

/// Snapshots one mesh into polygon buffers; an empty mesh produces none.
fn pack_mesh(m: &PolyMesh) -> (b: Option<WgpuPolygonBuffers>)
    requires
        m.wf(),
    ensures
        poly_buffers_match(*m, b),
        b matches Some(pb) ==> poly_buffers_wf(pb),
{
    if m.vertices.len() == 0 {
        None
    } else {
        let vertices = copy_vec(&m.vertices);
        let indices = copy_vec(&m.indices);
        let index_count = indices.len() as u32;
        Some(WgpuPolygonBuffers { vertices, indices, index_count })
    }
}

/// Copies the image store, one texture per entry.
fn copy_images(store: &Vec<DecodedImage>) -> (r: Vec<DecodedImage>)
    ensures
        r@.len() == store@.len(),
        forall|i: int|
            0 <= i < store@.len() ==> image_view_eq(#[trigger] r@[i], store@[i]),
{
    let n = store.len();
    let mut r: Vec<DecodedImage> = Vec::new();
    let mut i: usize = 0;
    while i < n
        invariant
            n == store@.len(),
            0 <= i <= n,
            r@.len() == i,
            forall|k: int| 0 <= k < i ==> image_view_eq(#[trigger] r@[k], store@[k]),
        decreases n - i,
    {
        let img = &store[i];
        let pixels = copy_vec(&img.pixels);
        r.push(DecodedImage { width: img.width, height: img.height, pixels });
        i = i + 1;
    }
    r
}

/// Builds the packed image placements from the bundle's placements.
fn build_image_buffers(images: &Vec<ImagePlacement>) -> (r: Vec<WgpuImage>)
    ensures
        r@.len() == images@.len(),
        forall|i: int|
            0 <= i < images@.len() ==> #[trigger] r@[i] == wgpu_image_of(images@[i]),
{
    let n = images.len();
    let mut r: Vec<WgpuImage> = Vec::new();
    let mut i: usize = 0;
    while i < n
        invariant
            n == images@.len(),
            0 <= i <= n,
            r@.len() == i,
            forall|k: int| 0 <= k < i ==> #[trigger] r@[k] == wgpu_image_of(images@[k]),
        decreases n - i,
    {
        let p = images[i];
        r.push(WgpuImage { texture_index: p.image_index, q0: p.q0, q1: p.q1, q2: p.q2, q3: p.q3 });
        i = i + 1;
    }
    r
}

} // verus!
