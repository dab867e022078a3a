use galileo::tess::{triangulate_ring, Point2};

fn shoelace2(ring: &[Point2]) -> i64 {
    let n = ring.len();
    let mut sum: i64 = 0;
    for i in 0..n {
        let a = ring[i];
        let b = ring[(i + 1) % n];
        sum += (a.x as i64) * (b.y as i64) - (a.y as i64) * (b.x as i64);
    }
    sum
}

fn triangle_area_sum2(ring: &[Point2], idx: &[u32]) -> i64 {
    let mut sum: i64 = 0;
    for t in 0..idx.len() / 3 {
        let a = ring[idx[3 * t] as usize];
        let b = ring[idx[3 * t + 1] as usize];
        let c = ring[idx[3 * t + 2] as usize];
        sum += ((b.x - a.x) as i64) * ((c.y - a.y) as i64)
            - ((b.y - a.y) as i64) * ((c.x - a.x) as i64);
    }
    sum
}

#[test]
fn triangle_ring_gives_single_triangle() {
    let ring = vec![Point2::new(0, 0), Point2::new(10, 0), Point2::new(0, 10)];
    let idx = triangulate_ring(&ring);
    assert_eq!(idx, vec![0, 1, 2]);
    assert_eq!(triangle_area_sum2(&ring, &idx), shoelace2(&ring));
    assert_eq!(shoelace2(&ring), 100);
}

#[test]
fn square_ring_gives_fan_of_two() {
    let ring = vec![
        Point2::new(0, 0),
        Point2::new(4, 0),
        Point2::new(4, 4),
        Point2::new(0, 4),
    ];
    let idx = triangulate_ring(&ring);
    assert_eq!(idx, vec![0, 1, 2, 0, 2, 3]);
    for &i in &idx {
        assert!((i as usize) < ring.len());
    }
    assert_eq!(triangle_area_sum2(&ring, &idx), shoelace2(&ring));
    assert_eq!(shoelace2(&ring), 32);
}

#[test]
fn nonconvex_ring_area_still_exact() {
    // an arrow-like non-convex pentagon: overlapping fan triangles cancel
    // by signed area, so the sum still equals the shoelace area exactly
    let ring = vec![
        Point2::new(0, 0),
        Point2::new(8, 0),
        Point2::new(8, 8),
        Point2::new(4, 2),
        Point2::new(0, 8),
    ];
    let idx = triangulate_ring(&ring);
    assert_eq!(idx.len(), 3 * (ring.len() - 2));
    for &i in &idx {
        assert!((i as usize) < ring.len());
    }
    assert_eq!(triangle_area_sum2(&ring, &idx), shoelace2(&ring));
}

#[test]
fn clockwise_ring_has_negative_area() {
    let ring = vec![
        Point2::new(0, 0),
        Point2::new(0, 4),
        Point2::new(4, 4),
        Point2::new(4, 0),
    ];
    let idx = triangulate_ring(&ring);
    assert_eq!(triangle_area_sum2(&ring, &idx), shoelace2(&ring));
    assert_eq!(shoelace2(&ring), -32);
}
