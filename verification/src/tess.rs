//! Triangulation of polygon outlines.
//!
//! A polygon ring (an outer outline or an interior hole) is decomposed into
//! a triangle fan anchored at its first point, under the non-zero winding
//! fill rule: triangles inherit the ring's orientation, overlapping fan
//! triangles of a non-convex ring cancel by signed area, and an interior
//! ring wound opposite to its outer ring subtracts from it. This tie-break
//! is chosen deliberately: it pairs with a stencil-buffer fill pass, never
//! fails on any ring of three or more points, and keeps an exact invariant,
//! proved below: the signed areas of the emitted triangles sum to the
//! ring's signed area, exactly. Rings of fewer than three points are the
//! caller's per-primitive decoding failure and are rejected before any
//! geometry is emitted.

use vstd::prelude::*;

verus! {

/// A 2d outline point, in fixed-point map units.
#[derive(Clone, Copy, Debug, PartialEq, Eq, Structural)]
pub struct Point2 {
    pub x: i32,
    pub y: i32,
}

impl Point2 {
    /// Builds a point from its coordinates.
    pub fn new(x: i32, y: i32) -> (p: Point2)
        ensures
            p == (Point2 { x, y }),
    {
        Point2 { x, y }
    }
}

/// The cross product of two position vectors: `a.x*b.y - a.y*b.x`.
pub open spec fn cross2(a: Point2, b: Point2) -> int {
    a.x * b.y - a.y * b.x
}

/// Twice the signed area of the triangle `(a, b, c)`.
pub open spec fn tri_area2(a: Point2, b: Point2, c: Point2) -> int {
    (b.x - a.x) * (c.y - a.y) - (b.y - a.y) * (c.x - a.x)
}

/// Sum of `cross2` over the first `k` consecutive edges of a ring.
pub open spec fn open_edge_sum(ring: Seq<Point2>, k: int) -> int
    decreases k,
{
    if k <= 0 {
        0
    } else {
        open_edge_sum(ring, k - 1) + cross2(ring[k - 1], ring[k])
    }
}

/// Twice the signed area of a closed ring (the shoelace formula): the edge
/// sum over all consecutive edges plus the closing edge.
pub open spec fn ring_area2(ring: Seq<Point2>) -> int
    recommends
        ring.len() >= 1,
{
    open_edge_sum(ring, ring.len() - 1) + cross2(ring[ring.len() - 1], ring[0])
}

/// Twice the signed area of the fan triangles `(ring[0], ring[i], ring[i+1])`
/// for `i` in `1..k`.
pub open spec fn fan_area2(ring: Seq<Point2>, k: int) -> int
    decreases k,
{
    if k <= 1 {
        0
    } else {
        fan_area2(ring, k - 1) + tri_area2(ring[0], ring[k - 1], ring[k])
    }
}

/// Twice the signed area of the first `t` triangles that an index list
/// describes over a ring.
pub open spec fn triangles_area2(ring: Seq<Point2>, idx: Seq<u32>, t: int) -> int
    decreases t,
{
    if t <= 0 {
        0
    } else {
        triangles_area2(ring, idx, t - 1) + tri_area2(
            ring[idx[3 * (t - 1)] as int],
            ring[idx[3 * (t - 1) + 1] as int],
            ring[idx[3 * (t - 1) + 2] as int],
        )
    }
}

/// A triangle's doubled area expands into three cross products.
proof fn lemma_tri_expand(a: Point2, b: Point2, c: Point2) by (nonlinear_arith)
    ensures
        tri_area2(a, b, c) == cross2(b, c) + cross2(a, b) - cross2(a, c),
{
}

/// The cross product is antisymmetric.
proof fn lemma_cross_antisym(a: Point2, b: Point2) by (nonlinear_arith)
    ensures
        cross2(a, b) == -cross2(b, a),
{
}

/// The fan prefix identity: the fan triangles up to `k` cover the ring's
/// edges up to `k`, short of the chord back to the anchor.
proof fn lemma_fan_edge(ring: Seq<Point2>, k: int)
    requires
        1 <= k < ring.len(),
    ensures
        fan_area2(ring, k) == open_edge_sum(ring, k) - cross2(ring[0], ring[k]),
    decreases k,
{
    if k == 1 {
        assert(open_edge_sum(ring, 0) == 0);
    } else {
        lemma_fan_edge(ring, k - 1);
        lemma_tri_expand(ring[0], ring[k - 1], ring[k]);
    }
}

/// The fan decomposition is exact: the doubled signed areas of the fan
/// triangles of a ring sum to the ring's doubled signed area.
pub proof fn lemma_fan_covers_ring(ring: Seq<Point2>)
    requires
        ring.len() >= 3,
    ensures
        fan_area2(ring, ring.len() - 1) == ring_area2(ring),
{
    lemma_fan_edge(ring, ring.len() - 1);
    lemma_cross_antisym(ring[0], ring[ring.len() - 1]);
}

/// The shape of the index list [`triangulate_ring`] emits.
pub open spec fn fan_indices_shape(n: int, idx: Seq<u32>) -> bool {
    &&& idx.len() == 3 * (n - 2)
    &&& forall|t: int|
        0 <= t < n - 2 ==> #[trigger] idx[3 * t] == 0 && idx[3 * t + 1] == t + 1 && idx[3 * t + 2]
            == t + 2
}

/// The value a fan-shaped index list holds at position `j`: the anchor for
/// the first index of each triple, else the triple number plus the
/// position within the triple.
pub open spec fn fan_index_value(j: int) -> int {
    if j % 3 == 0 {
        0
    } else {
        j / 3 + j % 3
    }
}

/// A fan-shaped index list is pinned position by position.
proof fn lemma_fan_index_value(n: int, idx: Seq<u32>, j: int)
    requires
        fan_indices_shape(n, idx),
        0 <= j < idx.len(),
    ensures
        idx[j] == fan_index_value(j),
{
    let t = j / 3;
    let r = j % 3;
    vstd::arithmetic::div_mod::lemma_fundamental_div_mod(j, 3);
    assert(0 <= r < 3) by (nonlinear_arith)
        requires
            r == j % 3,
            j >= 0,
    ;
    assert(0 <= t < n - 2) by (nonlinear_arith)
        requires
            0 <= j < 3 * (n - 2),
            t == j / 3,
    ;
    assert(idx[3 * t] == 0);
    assert(idx[3 * t + 1] == t + 1);
    assert(idx[3 * t + 2] == t + 2);
}

/// An index list of fan shape describes triangles whose doubled signed
/// areas sum exactly to the ring's doubled signed area; every index is
/// below the ring length. This is the tessellator's soundness statement
/// for a single ring.
pub proof fn lemma_fan_triangulation_exact(ring: Seq<Point2>, idx: Seq<u32>)
    requires
        3 <= ring.len(),
        fan_indices_shape(ring.len() as int, idx),
    ensures
        forall|j: int| 0 <= j < idx.len() ==> (idx[j] as int) < ring.len(),
        triangles_area2(ring, idx, ring.len() - 2) == ring_area2(ring),
{
    let n = ring.len() as int;
    assert forall|j: int| 0 <= j < idx.len() implies (idx[j] as int) < ring.len() by {
        let t = j / 3;
        assert(0 <= t < n - 2) by (nonlinear_arith)
            requires
                0 <= j < 3 * (n - 2),
                t == j / 3,
        ;
        assert(j == 3 * t || j == 3 * t + 1 || j == 3 * t + 2) by (nonlinear_arith)
            requires
                t == j / 3,
                0 <= j,
        ;
        assert(idx[3 * t] == 0);
        assert(idx[3 * t + 1] == t + 1);
        assert(idx[3 * t + 2] == t + 2);
    }
    assert forall|t: int| 1 <= t <= n - 2 implies triangles_area2(ring, idx, t) == fan_area2(
        ring,
        t + 1,
    ) by {
        lemma_triangles_are_fan(ring, idx, t);
    }
    lemma_fan_covers_ring(ring);
}

/// The triangle prefix sums of a fan-shaped index list equal the fan prefix
/// sums.
proof fn lemma_triangles_are_fan(ring: Seq<Point2>, idx: Seq<u32>, t: int)
    requires
        3 <= ring.len(),
        fan_indices_shape(ring.len() as int, idx),
        0 <= t <= ring.len() - 2,
    ensures
        triangles_area2(ring, idx, t) == fan_area2(ring, t + 1),
    decreases t,
{
    if t > 0 {
        lemma_triangles_are_fan(ring, idx, t - 1);
    }
}

/// Triangulates one ring as a fan anchored at its first point. The emitted
/// index list has the exact fan shape, so every index references a ring
/// point and the triangles' signed areas sum to the ring's signed area.
pub fn triangulate_ring(ring: &Vec<Point2>) -> (idx: Vec<u32>)
    requires
        3 <= ring@.len() <= u32::MAX,
    ensures
        fan_indices_shape(ring@.len() as int, idx@),
        idx@.len() == 3 * (ring@.len() - 2),
        forall|j: int| 0 <= j < idx@.len() ==> (idx@[j] as int) < ring@.len(),
        forall|j: int| 0 <= j < idx@.len() ==> #[trigger] idx@[j] == fan_index_value(j),
        triangles_area2(ring@, idx@, ring@.len() - 2) == ring_area2(ring@),
{
    let n = ring.len();
    let mut idx: Vec<u32> = Vec::new();
    let mut i: usize = 1;
    while i + 1 < n
        invariant
            3 <= n <= u32::MAX,
            n == ring@.len(),
            1 <= i <= n - 1,
            idx@.len() == 3 * (i - 1),
            forall|t: int|
                0 <= t < i - 1 ==> #[trigger] idx@[3 * t] == 0 && idx@[3 * t + 1] == t + 1
                    && idx@[3 * t + 2] == t + 2,
        decreases n - i,
    {
        let ghost pre = idx@;
        idx.push(0);
        idx.push(i as u32);
        idx.push((i + 1) as u32);
        proof {
            let t = (i - 1) as int;
            assert forall|u: int|
                0 <= u < i as int implies #[trigger] idx@[3 * u] == 0 && idx@[3 * u + 1] == u + 1
                    && idx@[3 * u + 2] == u + 2 by {
                if u < t {
                    assert(0 <= 3 * u && 3 * u + 2 < pre.len());
                    assert(idx@[3 * u] == pre[3 * u]);
                    assert(idx@[3 * u + 1] == pre[3 * u + 1]);
                    assert(idx@[3 * u + 2] == pre[3 * u + 2]);
                    assert(pre[3 * u] == 0 && pre[3 * u + 1] == u + 1 && pre[3 * u + 2] == u + 2);
                } else {
                    assert(u == t);
                    assert(3 * u == pre.len() && 3 * u + 1 == pre.len() + 1 && 3 * u + 2
                        == pre.len() + 2);
                    assert(idx@[3 * u] == 0);
                    assert(idx@[3 * u + 1] == u + 1);
                    assert(idx@[3 * u + 2] == u + 2);
                }
            }
        }
        i = i + 1;
    }
    proof {
        assert(i == n - 1);
        assert(idx@.len() == 3 * (ring@.len() - 2));
        assert forall|t: int|
            0 <= t < ring@.len() - 2 implies #[trigger] idx@[3 * t] == 0 && idx@[3 * t + 1] == t
                + 1 && idx@[3 * t + 2] == t + 2 by {
            assert(idx@[3 * t] == 0);
            assert(idx@[3 * t + 1] == t + 1);
            assert(idx@[3 * t + 2] == t + 2);
        }
        assert(fan_indices_shape(ring@.len() as int, idx@));
        lemma_fan_triangulation_exact(ring@, idx@);
        assert forall|j: int| 0 <= j < idx@.len() implies #[trigger] idx@[j] == fan_index_value(
            j,
        ) by {
            lemma_fan_index_value(ring@.len() as int, idx@, j);
        }
    }
    idx
}

} // verus!
