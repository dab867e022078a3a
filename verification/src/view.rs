//! The view transform: from map coordinates to clip space.
//!
//! A frame's view is described by the map center, the resolution (map units
//! per pixel), two rotation angles (tilt about the x axis and heading about
//! the z axis) and the viewport size in pixels. From these the renderer
//! derives two transforms:
//!
//! * `map_to_clip`: translate the center to the origin, scale by the
//!   reciprocal of the resolution, rotate by `(rotation_x, 0, -rotation_z)`,
//!   then project orthographically so the viewport half-extent maps to the
//!   clip-space range of one fixed-point unit;
//! * `rotation_only`: the rotation step alone, used by screen-anchored
//!   content that must stay upright while the map underneath rotates.
//!
//! Angles enter as fixed-point cosine/sine pairs; whatever produces them
//! (trigonometry on floats, a table) stays outside the verified core.

use vstd::prelude::*;

use crate::fixed::{
    div_trunc, div_trunc_i128, fp, lemma_div_trunc_bound, lemma_div_trunc_cancel,
    lemma_div_trunc_zero, lemma_mul_bound, mul_i128, SCALE,
};
use crate::mat::{mat4_mul_in_range, mat4_mul_spec, mat4_wf, Mat4};

verus! {

/// Magnitude bound on map coordinates, in fixed-point units: 2^41, about
/// 3.3e7 map units, enough for a world in web-mercator meters.
pub const COORD_MAX: i64 = 0x20000000000;

/// A coordinate within the supported map extent.
pub open spec fn coord_ok(v: int) -> bool {
    -(COORD_MAX as int) <= v <= COORD_MAX as int
}

/// A point in map coordinates (fixed-point).
#[derive(Clone, Copy, Debug, PartialEq, Eq, Structural)]
pub struct Point3 {
    pub x: i64,
    pub y: i64,
    pub z: i64,
}

impl Point3 {
    /// All three coordinates within the supported extent.
    pub open spec fn wf(&self) -> bool {
        coord_ok(self.x as int) && coord_ok(self.y as int) && coord_ok(self.z as int)
    }

    /// Builds a point from its coordinates.
    pub fn new(x: i64, y: i64, z: i64) -> (p: Point3)
        ensures
            p == (Point3 { x, y, z }),
    {
        Point3 { x, y, z }
    }
}

/// An angle, stored as its fixed-point cosine and sine.
#[derive(Clone, Copy, Debug, PartialEq, Eq, Structural)]
pub struct Rotation2 {
    pub cos: i64,
    pub sin: i64,
}

impl Rotation2 {
    /// Cosine and sine within the fixed-point unit range.
    pub open spec fn wf(&self) -> bool {
        -SCALE <= self.cos <= SCALE && -SCALE <= self.sin <= SCALE
    }

    /// The zero angle.
    pub fn zero() -> (r: Rotation2)
        ensures
            r == (Rotation2 { cos: SCALE, sin: 0i64 }),
            r.wf(),
    {
        Rotation2 { cos: SCALE, sin: 0 }
    }

    /// Builds an angle from a fixed-point cosine/sine pair.
    pub fn new(cos: i64, sin: i64) -> (r: Rotation2)
        requires
            -SCALE <= cos <= SCALE,
            -SCALE <= sin <= SCALE,
        ensures
            r == (Rotation2 { cos, sin }),
            r.wf(),
    {
        Rotation2 { cos, sin }
    }
}

/// The view state a frame is rendered with.
#[derive(Clone, Copy, Debug, PartialEq, Eq, Structural)]
pub struct MapView {
    /// Map x coordinate shown at the viewport center (fixed-point).
    pub center_x: i64,
    /// Map y coordinate shown at the viewport center (fixed-point).
    pub center_y: i64,
    /// Map units per pixel (fixed-point); strictly positive.
    pub resolution: i64,
    /// Tilt about the x axis.
    pub rotation_x: Rotation2,
    /// Heading about the z axis.
    pub rotation_z: Rotation2,
    /// Viewport width in pixels; at least one.
    pub width: u32,
    /// Viewport height in pixels; at least one.
    pub height: u32,
}

impl MapView {
    /// The contract every view must satisfy: a strictly positive resolution,
    /// a center within the supported extent, unit-range rotations and a
    /// non-empty viewport.
    pub open spec fn wf(&self) -> bool {
        &&& self.resolution >= 1
        &&& coord_ok(self.center_x as int)
        &&& coord_ok(self.center_y as int)
        &&& self.rotation_x.wf()
        &&& self.rotation_z.wf()
        &&& self.width >= 1
        &&& self.height >= 1
    }

    /// Checked constructor: rejects, rather than accepts silently, a zero or
    /// negative resolution, an empty viewport, or out-of-range coordinates.
    pub fn try_new(
        center_x: i64,
        center_y: i64,
        resolution: i64,
        rotation_x: Rotation2,
        rotation_z: Rotation2,
        width: u32,
        height: u32,
    ) -> (r: Option<MapView>)
        requires
            rotation_x.wf(),
            rotation_z.wf(),
        ensures
            r matches Some(v) ==> v == (MapView {
                center_x,
                center_y,
                resolution,
                rotation_x,
                rotation_z,
                width,
                height,
            }) && v.wf(),
            r is Some <==> resolution >= 1 && coord_ok(center_x as int) && coord_ok(
                center_y as int,
            ) && width >= 1 && height >= 1,
    {
        if resolution >= 1 && center_x >= -COORD_MAX && center_x <= COORD_MAX && center_y
            >= -COORD_MAX && center_y <= COORD_MAX && width >= 1 && height >= 1 {
            Some(
                MapView {
                    center_x,
                    center_y,
                    resolution,
                    rotation_x,
                    rotation_z,
                    width,
                    height,
                },
            )
        } else {
            None
        }
    }
}

/// Scaling a translated coordinate from map units to pixels: multiply by the
/// fixed-point unit and divide by the resolution.
pub open spec fn scale_step(v: int, res: int) -> int {
    div_trunc(v * SCALE, res)
}

/// First component of rotating `(u, v)` by an angle with cosine `c`, sine `s`.
pub open spec fn rot_a(c: int, s: int, u: int, v: int) -> int {
    fp(u * c - v * s)
}

/// Second component of rotating `(u, v)` by an angle with cosine `c`, sine `s`.
pub open spec fn rot_b(c: int, s: int, u: int, v: int) -> int {
    fp(u * s + v * c)
}

/// The rotation step shared by both transforms: rotate about the x axis by
/// the tilt angle, then about the z axis by the negated heading angle.
pub open spec fn rotate_spec(rx: Rotation2, rz: Rotation2, x: int, y: int, z: int) -> (
    int,
    int,
    int,
) {
    let y1 = rot_a(rx.cos as int, rx.sin as int, y, z);
    let z1 = rot_b(rx.cos as int, rx.sin as int, y, z);
    let x2 = rot_a(rz.cos as int, -(rz.sin as int), x, y1);
    let y2 = rot_b(rz.cos as int, -(rz.sin as int), x, y1);
    (x2, y2, z1)
}

/// The viewport half-extent of a dimension of `w` pixels, fixed-point:
/// `w` times half the fixed-point unit.
pub open spec fn half_px(w: int) -> int {
    w * 32768
}

/// Projecting a rotated pixel coordinate onto the clip range: divide by the
/// half-extent, so the viewport edge lands on one fixed-point unit.
pub open spec fn ortho_step(v: int, half: int) -> int {
    div_trunc(v * SCALE, half)
}

/// Where `map_to_clip` sends a point: translate the view center to the
/// origin, scale by the reciprocal of the resolution, rotate, project.
/// The result is in fixed-point clip coordinates: the viewport edges lie at
/// plus and minus one fixed-point unit; z stays in pixel units.
pub open spec fn map_to_clip_spec(view: MapView, p: Point3) -> (int, int, int) {
    let tx = p.x - view.center_x;
    let ty = p.y - view.center_y;
    let tz = p.z as int;
    let sx = scale_step(tx, view.resolution as int);
    let sy = scale_step(ty, view.resolution as int);
    let sz = scale_step(tz, view.resolution as int);
    let r = rotate_spec(view.rotation_x, view.rotation_z, sx, sy, sz);
    (ortho_step(r.0, half_px(view.width as int)), ortho_step(r.1, half_px(view.height as int)), r.2)
}

/// Where `rotation_only` sends a point: the rotation step alone.
pub open spec fn rotation_only_spec(view: MapView, p: Point3) -> (int, int, int) {
    rotate_spec(view.rotation_x, view.rotation_z, p.x as int, p.y as int, p.z as int)
}

/// Computes `fp(u*a + v*b)` exactly, with a bound carried through for the
/// caller's overflow reasoning.
fn fp_lin2(u: i128, a: i64, v: i128, b: i64, bound: Ghost<int>) -> (r: i128)
    requires
        0 <= bound@ <= 0x2000000000000000,
        -bound@ <= u <= bound@,
        -bound@ <= v <= bound@,
        -SCALE <= a <= SCALE,
        -SCALE <= b <= SCALE,
    ensures
        r == fp(u * (a as int) + v * (b as int)),
        -2 * bound@ <= r <= 2 * bound@,
{
    let pa = mul_i128(u, a as i128);
    let pb = mul_i128(v, b as i128);
    proof {
        lemma_mul_bound(u as int, a as int, bound@, SCALE as int);
        lemma_mul_bound(v as int, b as int, bound@, SCALE as int);
        lemma_div_trunc_bound(
            u as int * (a as int) + v as int * (b as int),
            SCALE as int,
            2 * bound@ * (SCALE as int),
        );
        lemma_div_trunc_cancel(2 * bound@, SCALE as int);
    }
    div_trunc_i128(pa + pb, SCALE as i128)
}

/// Scales one translated coordinate from map units to pixels.
fn scale_coord(v: i64, res: i64) -> (r: i128)
    requires
        res >= 1,
        -0x40000000000 <= v <= 0x40000000000,
    ensures
        r == scale_step(v as int, res as int),
        -0x400000000000000 <= r <= 0x400000000000000,
{
    let num = mul_i128(v as i128, SCALE as i128);
    div_trunc_i128(num, res as i128)
}

/// Projects one rotated pixel coordinate onto the clip range.
fn ortho_coord(v: i128, half: i64) -> (r: i64)
    requires
        -0x1000000000000000 <= v <= 0x1000000000000000,
        32768 <= half <= 0x800000000000,
    ensures
        r == ortho_step(v as int, half as int),
{
    let num = mul_i128(v, SCALE as i128);
    let q = div_trunc_i128(num, half as i128);
    proof {
        lemma_mul_bound(v as int, SCALE as int, 0x1000000000000000, SCALE as int);
        lemma_div_trunc_bound(
            v as int * (SCALE as int),
            half as int,
            0x10000000000000000000,
        );
        vstd::arithmetic::div_mod::lemma_div_is_ordered_by_denominator(
            0x10000000000000000000,
            32768,
            half as int,
        );
    }
    q as i64
}

/// The viewport half-extent in fixed-point pixels.
fn half_extent(w: u32) -> (r: i64)
    requires
        w >= 1,
    ensures
        r == half_px(w as int),
        32768 <= r <= 0x800000000000,
{
    (w as i64) * 32768
}

/// Applies the `map_to_clip` transform to a point, exactly as
/// [`map_to_clip_spec`] describes.
pub fn apply_map_to_clip(view: &MapView, p: &Point3) -> (q: Point3)
    requires
        view.wf(),
        p.wf(),
    ensures
        (q.x as int, q.y as int, q.z as int) == map_to_clip_spec(*view, *p),
{
    let tx = p.x - view.center_x;
    let ty = p.y - view.center_y;
    let tz = p.z;
    let sx = scale_coord(tx, view.resolution);
    let sy = scale_coord(ty, view.resolution);
    let sz = scale_coord(tz, view.resolution);
    let rxc = view.rotation_x.cos;
    let rxs = view.rotation_x.sin;
    let rzc = view.rotation_z.cos;
    let rzs = view.rotation_z.sin;
    let y1 = fp_lin2(sy, rxc, sz, -rxs, Ghost(0x400000000000000int));
    proof {
        crate::fixed::lemma_mul_neg(sz as int, rxs as int);
    }
    let z1 = fp_lin2(sy, rxs, sz, rxc, Ghost(0x400000000000000int));
    let x2 = fp_lin2(sx, rzc, y1, rzs, Ghost(0x800000000000000int));
    proof {
        crate::fixed::lemma_mul_neg(y1 as int, rzs as int);
    }
    let y2 = fp_lin2(sx, -rzs, y1, rzc, Ghost(0x800000000000000int));
    let half_w = half_extent(view.width);
    let half_h = half_extent(view.height);
    let qx = ortho_coord(x2, half_w);
    let qy = ortho_coord(y2, half_h);
    Point3 { x: qx, y: qy, z: z1 as i64 }
}

/// Applies the `rotation_only` transform to a point (in fixed-point screen
/// units), exactly as [`rotation_only_spec`] describes.
pub fn apply_rotation_only(view: &MapView, p: &Point3) -> (q: Point3)
    requires
        view.wf(),
        p.wf(),
    ensures
        (q.x as int, q.y as int, q.z as int) == rotation_only_spec(*view, *p),
{
    let rxc = view.rotation_x.cos;
    let rxs = view.rotation_x.sin;
    let rzc = view.rotation_z.cos;
    let rzs = view.rotation_z.sin;
    let y1 = fp_lin2(p.y as i128, rxc, p.z as i128, -rxs, Ghost(0x20000000000int));
    proof {
        crate::fixed::lemma_mul_neg(p.z as int, rxs as int);
    }
    let z1 = fp_lin2(p.y as i128, rxs, p.z as i128, rxc, Ghost(0x20000000000int));
    let x2 = fp_lin2(p.x as i128, rzc, y1, rzs, Ghost(0x40000000000int));
    proof {
        crate::fixed::lemma_mul_neg(y1 as int, rzs as int);
    }
    let y2 = fp_lin2(p.x as i128, -rzs, y1, rzc, Ghost(0x40000000000int));
    Point3 { x: x2 as i64, y: y2 as i64, z: z1 as i64 }
}

/// First component of the heading rotation applied to map content: rotation
/// about z by the negated heading angle, without fixed-point rescaling.
pub open spec fn heading_map_raw_x(c: int, s: int, x: int, y: int) -> int {
    x * c + y * s
}

/// Second component of the heading rotation applied to map content.
pub open spec fn heading_map_raw_y(c: int, s: int, x: int, y: int) -> int {
    y * c - x * s
}

/// First component of the counter-rotation screen-anchored content applies:
/// rotation about z by the heading angle itself, without rescaling.
pub open spec fn heading_screen_raw_x(c: int, s: int, x: int, y: int) -> int {
    x * c - y * s
}

/// Second component of the screen-anchored counter-rotation.
pub open spec fn heading_screen_raw_y(c: int, s: int, x: int, y: int) -> int {
    x * s + y * c
}

/// Rotates a map-content vector by the heading, unrescaled: each output
/// carries one extra factor of the fixed-point unit.
pub fn rotate_heading_map(r: &Rotation2, x: i64, y: i64) -> (q: (i128, i128))
    requires
        r.wf(),
        coord_ok(x as int),
        coord_ok(y as int),
    ensures
        q.0 == heading_map_raw_x(r.cos as int, r.sin as int, x as int, y as int),
        q.1 == heading_map_raw_y(r.cos as int, r.sin as int, x as int, y as int),
        -0x400000000000000 <= q.0 <= 0x400000000000000,
        -0x400000000000000 <= q.1 <= 0x400000000000000,
{
    proof {
        lemma_mul_bound(x as int, r.cos as int, COORD_MAX as int, SCALE as int);
        lemma_mul_bound(y as int, r.sin as int, COORD_MAX as int, SCALE as int);
        lemma_mul_bound(y as int, r.cos as int, COORD_MAX as int, SCALE as int);
        lemma_mul_bound(x as int, r.sin as int, COORD_MAX as int, SCALE as int);
    }
    let a = mul_i128(x as i128, r.cos as i128) + mul_i128(y as i128, r.sin as i128);
    let b = mul_i128(y as i128, r.cos as i128) - mul_i128(x as i128, r.sin as i128);
    (a, b)
}

/// Applies the screen-anchored counter-rotation to an unrescaled vector:
/// the outputs carry two extra factors of the fixed-point unit.
pub fn rotate_heading_screen(r: &Rotation2, x: i128, y: i128) -> (q: (i128, i128))
    requires
        r.wf(),
        -0x400000000000000 <= x <= 0x400000000000000,
        -0x400000000000000 <= y <= 0x400000000000000,
    ensures
        q.0 == heading_screen_raw_x(r.cos as int, r.sin as int, x as int, y as int),
        q.1 == heading_screen_raw_y(r.cos as int, r.sin as int, x as int, y as int),
        -0x8000000000000000000 <= q.0 <= 0x8000000000000000000,
        -0x8000000000000000000 <= q.1 <= 0x8000000000000000000,
{
    proof {
        lemma_mul_bound(x as int, r.cos as int, 0x400000000000000, SCALE as int);
        lemma_mul_bound(y as int, r.sin as int, 0x400000000000000, SCALE as int);
        lemma_mul_bound(x as int, r.sin as int, 0x400000000000000, SCALE as int);
        lemma_mul_bound(y as int, r.cos as int, 0x400000000000000, SCALE as int);
    }
    let a = mul_i128(x, r.cos as i128) - mul_i128(y, r.sin as i128);
    let b = mul_i128(x, r.sin as i128) + mul_i128(y, r.cos as i128);
    (a, b)
}

/// Removes the two extra fixed-point factors a map-then-screen heading
/// round trip accumulates.
pub fn normalize_heading_round_trip(v: i128) -> (r: i64)
    requires
        -0x8000000000000000000 <= v <= 0x8000000000000000000,
    ensures
        r == div_trunc(v as int, SCALE as int * (SCALE as int)),
{
    let q = div_trunc_i128(v, 4294967296);
    proof {
        lemma_div_trunc_bound(v as int, 4294967296, 0x8000000000000000000);
    }
    q as i64
}

/// Rotating a vector with the map-content heading rotation and then with the
/// screen-anchored counter-rotation returns the vector scaled by
/// `c*c + s*s`: the two rotations are inverse to each other up to the
/// squared norm of the cosine/sine pair.
pub proof fn lemma_heading_round_trip(c: int, s: int, x: int, y: int) by (nonlinear_arith)
    ensures
        heading_screen_raw_x(c, s, heading_map_raw_x(c, s, x, y), heading_map_raw_y(c, s, x, y))
            == (c * c + s * s) * x,
        heading_screen_raw_y(c, s, heading_map_raw_x(c, s, x, y), heading_map_raw_y(c, s, x, y))
            == (c * c + s * s) * y,
{
}

/// For a unit cosine/sine pair (squared norm exactly one in fixed point),
/// the heading round trip gives the original vector back exactly once the
/// two extra fixed-point factors are removed: screen-anchored content
/// counter-rotated with `rotation_only` stays upright under any heading.
pub proof fn lemma_unit_heading_round_trip(c: int, s: int, x: int, y: int)
    requires
        c * c + s * s == SCALE as int * (SCALE as int),
    ensures
        div_trunc(
            heading_screen_raw_x(c, s, heading_map_raw_x(c, s, x, y), heading_map_raw_y(c, s, x, y)),
            SCALE as int * (SCALE as int),
        ) == x,
        div_trunc(
            heading_screen_raw_y(c, s, heading_map_raw_x(c, s, x, y), heading_map_raw_y(c, s, x, y)),
            SCALE as int * (SCALE as int),
        ) == y,
{
    lemma_heading_round_trip(c, s, x, y);
    assert((c * c + s * s) * x == x * (SCALE as int * (SCALE as int)) && (c * c + s * s) * y == y
        * (SCALE as int * (SCALE as int))) by (nonlinear_arith)
        requires
            c * c + s * s == SCALE as int * (SCALE as int),
    ;
    lemma_div_trunc_cancel(x, SCALE as int * (SCALE as int));
    lemma_div_trunc_cancel(y, SCALE as int * (SCALE as int));
}

/// The view center lands exactly on the clip-space origin, for every
/// well-formed view: the translation cancels it before any scaling or
/// rotation can move it, whatever the resolution and rotation are.
pub proof fn lemma_center_maps_to_clip_origin(view: MapView)
    requires
        view.wf(),
    ensures
        map_to_clip_spec(view, (Point3 { x: view.center_x, y: view.center_y, z: 0i64 })) == (
            0int,
            0int,
            0int,
        ),
{
    let res = view.resolution as int;
    lemma_div_trunc_zero(res);
    lemma_div_trunc_zero(SCALE as int);
    assert(half_px(view.width as int) > 0);
    assert(half_px(view.height as int) > 0);
    lemma_div_trunc_zero(half_px(view.width as int));
    lemma_div_trunc_zero(half_px(view.height as int));
}

/// The two matrices derived from a view, recomputed every frame that has
/// any view change and uploaded before any draw call uses them.
#[derive(Clone, Copy, Debug, PartialEq, Eq, Structural)]
pub struct ViewMatrices {
    /// Full map-to-clip transform for map content.
    pub map_to_clip: Mat4,
    /// The rotation step alone, for screen-anchored content.
    pub rotation_only: Mat4,
}

/// The fixed-point scale factor converting map units to pixels: the squared
/// fixed-point unit over the resolution.
pub open spec fn scale_factor_spec(view: MapView) -> int {
    div_trunc(SCALE as int * (SCALE as int), view.resolution as int)
}

/// The fixed-point reciprocal of a viewport half-extent of `w` pixels.
pub open spec fn ortho_factor_spec(w: int) -> int {
    div_trunc(SCALE as int * (SCALE as int), half_px(w))
}

/// The translation component: moves the view center to the origin.
pub open spec fn translation_mat_spec(view: MapView) -> Mat4 {
    Mat4::translation_spec(
        (-(view.center_x as int)) as i64,
        (-(view.center_y as int)) as i64,
        0i64,
    )
}

/// The scaling component.
pub open spec fn scaling_mat_spec(view: MapView) -> Mat4 {
    Mat4::scaling_spec(scale_factor_spec(view) as i64)
}

/// The tilt component.
pub open spec fn rot_x_mat_spec(view: MapView) -> Mat4 {
    Mat4::rotation_x_spec(view.rotation_x.cos, view.rotation_x.sin)
}

/// The heading component (rotation about z by the negated heading angle).
pub open spec fn rot_z_mat_spec(view: MapView) -> Mat4 {
    Mat4::rotation_z_neg_spec(view.rotation_z.cos, view.rotation_z.sin)
}

/// The orthographic component.
pub open spec fn ortho_mat_spec(view: MapView) -> Mat4 {
    Mat4::orthographic_spec(
        ortho_factor_spec(view.width as int) as i64,
        ortho_factor_spec(view.height as int) as i64,
    )
}

/// The composed map-to-clip matrix: orthographic of heading of tilt of
/// scaling of translation.
pub open spec fn view_proj_spec(view: MapView) -> Mat4 {
    mat4_mul_spec(
        ortho_mat_spec(view),
        mat4_mul_spec(
            rot_z_mat_spec(view),
            mat4_mul_spec(rot_x_mat_spec(view), mat4_mul_spec(scaling_mat_spec(view), translation_mat_spec(view))),
        ),
    )
}

/// The composed rotation-only matrix: heading of tilt.
pub open spec fn rotation_mat_spec(view: MapView) -> Mat4 {
    mat4_mul_spec(rot_z_mat_spec(view), rot_x_mat_spec(view))
}

/// Whether every step of the matrix composition stays within the composable
/// entry range, so no product entry is truncated.
pub open spec fn view_matrices_in_range(view: MapView) -> bool {
    let t = translation_mat_spec(view);
    let s = scaling_mat_spec(view);
    let rx = rot_x_mat_spec(view);
    let rz = rot_z_mat_spec(view);
    let o = ortho_mat_spec(view);
    let st = mat4_mul_spec(s, t);
    let rst = mat4_mul_spec(rx, st);
    let zrst = mat4_mul_spec(rz, rst);
    &&& mat4_mul_in_range(s, t)
    &&& mat4_mul_in_range(rx, st)
    &&& mat4_mul_in_range(rz, rst)
    &&& mat4_mul_in_range(o, zrst)
    &&& mat4_mul_in_range(rz, rx)
}

/// Derives the per-frame matrices from the view: the map-to-clip matrix
/// composes translation, scaling, rotation and projection; the
/// rotation-only matrix applies the rotation steps alone. Returns `None`
/// exactly when a composition step leaves the composable entry range.
///
/// The matrices are the transform's fixed-point encoding for the shader
/// and round once per composition step; the transform itself is
/// [`apply_map_to_clip`], which applies the steps in sequence and is what
/// the exact laws (the view center landing on the clip origin, for one)
/// are stated of. Applying the rounded matrix to the center can be one
/// fixed-point ulp away from the origin.
pub fn compute(view: &MapView) -> (r: Option<ViewMatrices>)
    requires
        view.wf(),
    ensures
        r matches Some(m) ==> m.map_to_clip == view_proj_spec(*view) && m.rotation_only
            == rotation_mat_spec(*view) && mat4_wf(m.map_to_clip) && mat4_wf(m.rotation_only),
        r is Some <==> view_matrices_in_range(*view),
{
    let sq: i128 = 4294967296;
    let sc = div_trunc_i128(sq, view.resolution as i128);
    let half_w = half_extent(view.width);
    let half_h = half_extent(view.height);
    let ox = div_trunc_i128(sq, half_w as i128);
    let oy = div_trunc_i128(sq, half_h as i128);
    let t = Mat4::translation(-view.center_x, -view.center_y, 0);
    let s = Mat4::scaling(sc as i64);
    let rx = Mat4::rotation_x(view.rotation_x.cos, view.rotation_x.sin);
    let rz = Mat4::rotation_z_neg(view.rotation_z.cos, view.rotation_z.sin);
    let o = Mat4::orthographic(ox as i64, oy as i64);
    let st = match s.mul(&t) {
        Some(m) => m,
        None => {
            return None;
        },
    };
    let rst = match rx.mul(&st) {
        Some(m) => m,
        None => {
            return None;
        },
    };
    let zrst = match rz.mul(&rst) {
        Some(m) => m,
        None => {
            return None;
        },
    };
    let proj = match o.mul(&zrst) {
        Some(m) => m,
        None => {
            return None;
        },
    };
    let rot = match rz.mul(&rx) {
        Some(m) => m,
        None => {
            return None;
        },
    };
    Some(ViewMatrices { map_to_clip: proj, rotation_only: rot })
}

/// The uniform block uploaded once per frame before any draw call: both
/// matrices, the reciprocal viewport size and the resolution, all in fixed
/// point. The unverified shell converts entries to the floating-point
/// layout the shader expects.
#[derive(Clone, Copy, Debug, PartialEq, Eq, Structural)]
pub struct ViewUniform {
    /// Map-to-clip matrix for map content.
    pub view_proj: Mat4,
    /// Rotation-only matrix for screen-anchored content.
    pub view_rotation: Mat4,
    /// Fixed-point reciprocal of the viewport width in pixels.
    pub inv_screen_w: i64,
    /// Fixed-point reciprocal of the viewport height in pixels.
    pub inv_screen_h: i64,
    /// The view's resolution (fixed-point map units per pixel).
    pub resolution: i64,
}

/// The fixed-point reciprocal of a viewport dimension of `w` pixels.
pub open spec fn inv_dim_spec(w: int) -> int {
    (SCALE as int) / w
}

/// Builds the per-frame uniform block from the view. Returns `None` exactly
/// when the matrix composition leaves the composable entry range.
pub fn build_view_uniform(view: &MapView) -> (r: Option<ViewUniform>)
    requires
        view.wf(),
    ensures
        r matches Some(u) ==> u.view_proj == view_proj_spec(*view) && u.view_rotation
            == rotation_mat_spec(*view) && u.inv_screen_w == inv_dim_spec(view.width as int)
            && u.inv_screen_h == inv_dim_spec(view.height as int) && u.resolution
            == view.resolution,
        r is Some <==> view_matrices_in_range(*view),
{
    let matrices = match compute(view) {
        Some(m) => m,
        None => {
            return None;
        },
    };
    let iw = (SCALE as u64) / (view.width as u64);
    let ih = (SCALE as u64) / (view.height as u64);
    proof {
        lemma_div_trunc_bound(SCALE as int, view.width as int, SCALE as int);
        lemma_div_trunc_bound(SCALE as int, view.height as int, SCALE as int);
    }
    Some(
        ViewUniform {
            view_proj: matrices.map_to_clip,
            view_rotation: matrices.rotation_only,
            inv_screen_w: iw as i64,
            inv_screen_h: ih as i64,
            resolution: view.resolution,
        },
    )
}

} // verus!
