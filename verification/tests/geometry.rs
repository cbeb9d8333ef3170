use lightcycle::direction::Direction;
use lightcycle::line::{calculate_edge_points, generate_indices, generate_vertices, Line};
use lightcycle::player::{Turn, TurnDirection};
use lightcycle::point::Point3;

fn turn(x: i64, z: i64, direction: Direction, turn_direction: TurnDirection) -> Turn {
    Turn {
        pos: Point3 { x, y: 0, z },
        direction,
        turn_direction,
    }
}

const PATTERN: [u32; 30] = [
    0, 1, 2, 3, 2, 1, 6, 5, 4, 5, 6, 7, 0, 4, 5, 5, 1, 0, 7, 6, 2, 2, 3, 7, 5, 3, 1, 3, 5, 7,
];

#[test]
fn index_pattern_at_offset_zero() {
    let idx = generate_indices(0);
    assert_eq!(idx, PATTERN.to_vec());
}

#[test]
fn index_pattern_is_shifted_by_eight_per_segment() {
    for segment in [1u32, 2, 7, 100] {
        let idx = generate_indices(segment);
        assert_eq!(idx.len(), 30);
        for (i, v) in idx.iter().enumerate() {
            assert_eq!(*v, PATTERN[i] + 8 * segment);
        }
    }
}

#[test]
fn index_offsets_fit_at_the_largest_segment_index() {
    // 8 * index + 7 is exactly u32::MAX at this index
    let idx = generate_indices(536_870_911);
    assert_eq!(idx.len(), 30);
    assert_eq!(idx[0], 8 * 536_870_911);
    assert_eq!(*idx.iter().max().unwrap(), u32::MAX);
}

#[test]
fn side_offset_table_right_convexity() {
    // end record turned right: offsets toward the fixed side per facing
    let a = turn(0, 0, Direction::Forward, TurnDirection::Right);
    let w = 100;

    let e = calculate_edge_points(&a, &turn(5_000, 0, Direction::Left, TurnDirection::Right), w);
    assert_eq!((e.c.x - e.a.x, e.c.z - e.a.z), (-100, 0));
    let e = calculate_edge_points(&a, &turn(5_000, 0, Direction::Right, TurnDirection::Right), w);
    assert_eq!((e.c.x - e.a.x, e.c.z - e.a.z), (100, 0));
    let e = calculate_edge_points(&a, &turn(0, 5_000, Direction::Forward, TurnDirection::Right), w);
    assert_eq!((e.c.x - e.a.x, e.c.z - e.a.z), (0, -100));
    let e = calculate_edge_points(&a, &turn(0, 5_000, Direction::Backward, TurnDirection::Right), w);
    assert_eq!((e.c.x - e.a.x, e.c.z - e.a.z), (0, 100));
}

#[test]
fn side_offset_table_left_convexity_is_opposite() {
    let a = turn(0, 0, Direction::Forward, TurnDirection::Right);
    let w = 100;

    let e = calculate_edge_points(&a, &turn(5_000, 0, Direction::Left, TurnDirection::Left), w);
    assert_eq!((e.c.x - e.a.x, e.c.z - e.a.z), (100, 0));
    let e = calculate_edge_points(&a, &turn(5_000, 0, Direction::Right, TurnDirection::Left), w);
    assert_eq!((e.c.x - e.a.x, e.c.z - e.a.z), (-100, 0));
    let e = calculate_edge_points(&a, &turn(0, 5_000, Direction::Forward, TurnDirection::Left), w);
    assert_eq!((e.c.x - e.a.x, e.c.z - e.a.z), (0, 100));
    let e = calculate_edge_points(&a, &turn(0, 5_000, Direction::Backward, TurnDirection::Left), w);
    assert_eq!((e.c.x - e.a.x, e.c.z - e.a.z), (0, -100));
}

#[test]
fn gap_fill_fires_only_after_a_left_turn() {
    let b = turn(0, 5_000, Direction::Backward, TurnDirection::Right);
    let w = 100;

    // corner at `a` was a right turn: a and b stay on the centerline
    let a_right = turn(0, 0, Direction::Backward, TurnDirection::Right);
    let e = calculate_edge_points(&a_right, &b, w);
    assert_eq!(e.a, Point3 { x: 0, y: 0, z: 0 });
    assert_eq!(e.b, Point3 { x: 0, y: 0, z: 5_000 });

    // corner at `a` was a left turn: a and c are nudged, b and d are not
    let a_left = turn(0, 0, Direction::Backward, TurnDirection::Left);
    let e2 = calculate_edge_points(&a_left, &b, w);
    assert_eq!(e2.a, Point3 { x: -100, y: 0, z: 0 });
    assert_eq!(e2.c, Point3 { x: -100, y: 0, z: 100 });
    assert_eq!(e2.b, e.b);
    assert_eq!(e2.d, e.d);
}

#[test]
fn consecutive_segments_share_the_gap_filled_corner() {
    // a 3-turn path whose middle corner is a left turn
    let r0 = turn(0, 0, Direction::Forward, TurnDirection::Left);
    let r1 = turn(0, -3_000, Direction::Left, TurnDirection::Left);
    let r2 = turn(-2_000, -3_000, Direction::Forward, TurnDirection::Right);
    let w = 100;

    let e1 = calculate_edge_points(&r0, &r1, w);
    let e2 = calculate_edge_points(&r1, &r2, w);
    // the nudged start corner of the later segment lands on the offset end
    // corner of the earlier one: no seam
    assert_eq!(e2.a, e1.d);
}

#[test]
fn vertices_extrude_each_corner_twice() {
    let a = turn(0, 0, Direction::Forward, TurnDirection::Right);
    let b = turn(0, -4_000, Direction::Forward, TurnDirection::Right);
    let e = calculate_edge_points(&a, &b, 100);
    let vs = generate_vertices(&e, 250, 500);
    assert_eq!(vs.len(), 8);
    assert_eq!(vs[0], Point3 { x: e.a.x, y: 250, z: e.a.z });
    assert_eq!(vs[1], Point3 { x: e.a.x, y: 750, z: e.a.z });
    assert_eq!(vs[2], Point3 { x: e.b.x, y: 250, z: e.b.z });
    assert_eq!(vs[3], Point3 { x: e.b.x, y: 750, z: e.b.z });
    assert_eq!(vs[4], Point3 { x: e.c.x, y: 250, z: e.c.z });
    assert_eq!(vs[5], Point3 { x: e.c.x, y: 750, z: e.c.z });
    assert_eq!(vs[6], Point3 { x: e.d.x, y: 250, z: e.d.z });
    assert_eq!(vs[7], Point3 { x: e.d.x, y: 750, z: e.d.z });
}

#[test]
fn line_new_builds_buffers_and_offsets_indices() {
    let a = turn(0, 0, Direction::Right, TurnDirection::Left);
    let b = turn(4_000, 0, Direction::Right, TurnDirection::Right);
    let l = Line::new(3, a, b, 0, 100, 500);
    assert_eq!(l.index, 3);
    assert_eq!(l.y_offset, 0);
    assert_eq!(l.height, 500);
    assert_eq!(l.vertices.len(), 8);
    assert_eq!(l.indices.len(), 30);
    for (i, v) in l.indices.iter().enumerate() {
        assert_eq!(*v, PATTERN[i] + 24);
    }
}

#[test]
fn hit_test_boundary_sits_at_the_tolerance() {
    // rectangle [0, 2000] x [0, 100] on the ground plane
    let a = turn(0, 0, Direction::Backward, TurnDirection::Right);
    let b = turn(2_000, 0, Direction::Backward, TurnDirection::Right);
    let l = Line::new(0, a, b, 0, 100, 500);
    assert_eq!(l.edge_points.a, Point3 { x: 0, y: 0, z: 0 });
    assert_eq!(l.edge_points.b, Point3 { x: 2_000, y: 0, z: 0 });
    assert_eq!(l.edge_points.c, Point3 { x: 0, y: 0, z: 100 });
    assert_eq!(l.edge_points.d, Point3 { x: 2_000, y: 0, z: 100 });

    // 0.049 world units beyond the offset-axis extent: still a hit
    assert!(l.is_hit(&Point3 { x: 2_049, y: 0, z: 50 }));
    // 0.051 beyond: no hit
    assert!(!l.is_hit(&Point3 { x: 2_051, y: 0, z: 50 }));
    // the comparison is strict: exactly 0.05 beyond is no hit
    assert!(!l.is_hit(&Point3 { x: 2_050, y: 0, z: 50 }));
    // the same tolerance holds on the minimum side and on the z axis
    assert!(l.is_hit(&Point3 { x: -49, y: 0, z: 50 }));
    assert!(!l.is_hit(&Point3 { x: -51, y: 0, z: 50 }));
    assert!(l.is_hit(&Point3 { x: 1_000, y: 0, z: 149 }));
    assert!(!l.is_hit(&Point3 { x: 1_000, y: 0, z: 151 }));
}

#[test]
fn hit_test_ignores_the_vertical_extent() {
    let a = turn(0, 0, Direction::Backward, TurnDirection::Right);
    let b = turn(2_000, 0, Direction::Backward, TurnDirection::Right);
    let l = Line::new(0, a, b, 0, 500, 500);
    assert!(l.is_hit(&Point3 { x: 1_000, y: 1_000_000, z: 50 }));
    assert!(l.is_hit(&Point3 { x: 1_000, y: -1_000_000, z: 50 }));
}
