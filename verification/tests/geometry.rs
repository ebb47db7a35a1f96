use arena_sim::geom::{Vec2I, RectI, isqrt, dist_milli, segment_hits_circle, line_intersects_line,
    segment_hits_rect, normalize_milli};

fn v(x: i64, y: i64) -> Vec2I {
    Vec2I { x, y }
}

#[test]
fn isqrt_exact_values() {
    assert_eq!(isqrt(0), 0);
    assert_eq!(isqrt(1), 1);
    assert_eq!(isqrt(15), 3);
    assert_eq!(isqrt(16), 4);
    assert_eq!(isqrt(1_000_000), 1000);
    assert_eq!(isqrt(999_999), 999);
    assert_eq!(isqrt(u64::MAX), 4_294_967_295);
}

#[test]
fn dist_is_floor_of_euclidean() {
    assert_eq!(dist_milli(v(0, 0), v(3000, 4000)), 5000);
    assert_eq!(dist_milli(v(0, 0), v(1, 1)), 1);
    assert_eq!(dist_milli(v(-1000, 0), v(1000, 0)), 2000);
}

#[test]
fn center_on_segment_hits_for_zero_radius() {
    // the parameter-clamping symmetry: a center placed exactly on the
    // segment is a hit for any radius >= 0, even zero
    assert!(segment_hits_circle(v(0, 0), v(10_000, 0), 0, v(5_000, 0)));
    assert!(segment_hits_circle(v(0, 0), v(10_000, 10_000), 0, v(2_500, 2_500)));
    assert!(segment_hits_circle(v(0, 0), v(10_000, 0), 0, v(0, 0)));
    assert!(segment_hits_circle(v(0, 0), v(10_000, 0), 0, v(10_000, 0)));
}

#[test]
fn circle_off_the_carrier_line_needs_radius() {
    assert!(!segment_hits_circle(v(0, 0), v(10_000, 0), 999, v(5_000, 1_000)));
    assert!(segment_hits_circle(v(0, 0), v(10_000, 0), 1_000, v(5_000, 1_000)));
}

#[test]
fn projection_outside_segment_misses() {
    // center ahead of the far endpoint: clamped out, no hit for any radius
    assert!(!segment_hits_circle(v(0, 0), v(10_000, 0), 3_000, v(12_000, 0)));
    assert!(!segment_hits_circle(v(0, 0), v(10_000, 0), 3_000, v(-2_000, 0)));
}

#[test]
fn crossing_segments_intersect() {
    assert!(line_intersects_line(v(0, 0), v(10_000, 10_000), v(0, 10_000), v(10_000, 0)));
    // far apart: carrier lines cross outside both boxes
    assert!(!line_intersects_line(v(0, 0), v(1_000, 1_000), v(50_000, 0), v(51_000, -1_000)));
}

#[test]
fn parallel_segments_never_intersect() {
    assert!(!line_intersects_line(v(0, 0), v(10_000, 0), v(0, 1_000), v(10_000, 1_000)));
    // collinear overlapping segments count as parallel too
    assert!(!line_intersects_line(v(0, 0), v(10_000, 0), v(5_000, 0), v(15_000, 0)));
}

#[test]
fn vertical_segments_are_well_defined() {
    assert!(line_intersects_line(v(5_000, -5_000), v(5_000, 5_000), v(0, 0), v(10_000, 0)));
    assert!(!line_intersects_line(v(5_000, -5_000), v(5_000, 5_000), v(0, 1_000), v(4_000, 1_000)));
}

#[test]
fn swept_path_against_rect() {
    let r = RectI { x: 10_000, y: 10_000, w: 50_000, h: 50_000 };
    assert!(segment_hits_rect(v(0, 20_000), v(70_000, 20_000), &r));
    assert!(!segment_hits_rect(v(0, 0), v(5_000, 5_000), &r));
}

#[test]
fn normalize_gives_unit_components() {
    let u = normalize_milli(v(5_000, 0));
    assert_eq!((u.x, u.y), (1000, 0));
    let u = normalize_milli(v(0, -7_000));
    assert_eq!((u.x, u.y), (0, -1000));
    let u = normalize_milli(v(3_000, 4_000));
    assert_eq!((u.x, u.y), (600, 800));
}
