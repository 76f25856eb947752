use minigolf::geom::Vec2i;
use minigolf::geom::directions_to_points;
use minigolf::level_data::BuildError;
use minigolf::level_data::RawLevelData;
use minigolf::level_data::build_level;
use minigolf::level_data::level_1;
use minigolf::level_data::level_2;
use minigolf::level_data::level_3;
use minigolf::level_data::load_levels;
use minigolf::triangulate::triangulate;

fn v(x: i64, y: i64) -> Vec2i {
    Vec2i { x, y }
}

#[test]
fn centred_points_of_first_hole() {
    let raw = level_1();
    let points = directions_to_points(&raw.directions);
    // Absolute points are prefix sums; the bounding box spans x 0..720 and
    // y -540..50, so centring doubles the points and shifts by (720, -490).
    let expected = vec![
        v(-720, 490),
        v(-120, 490),
        v(80, 590),
        v(480, 590),
        v(480, 440),
        v(580, 440),
        v(580, 590),
        v(720, 590),
        v(720, -590),
        v(-720, -590),
        v(-720, 490),
    ];
    assert_eq!(points, expected);
}

#[test]
fn centred_cloud_bounding_box_is_symmetric() {
    // The centring law on an arbitrary displacement list: the bounding box
    // of the output is symmetric about the origin on both axes.
    let dirs = vec![v(3, 7), v(-10, 2), v(4, 4), v(0, -9), v(21, 1)];
    let points = directions_to_points(&dirs);
    let min_x = points.iter().map(|p| p.x).min().unwrap();
    let max_x = points.iter().map(|p| p.x).max().unwrap();
    let min_y = points.iter().map(|p| p.y).min().unwrap();
    let max_y = points.iter().map(|p| p.y).max().unwrap();
    assert_eq!(min_x + max_x, 0);
    assert_eq!(min_y + max_y, 0);
}

#[test]
fn triangulating_a_square_gives_two_triangles() {
    let square = vec![v(0, 0), v(10, 0), v(10, 10), v(0, 10)];
    let tris = triangulate(&square).expect("a square is triangulable");
    assert_eq!(tris.len(), 6);
    assert!(tris.iter().all(|&i| i < 4));
    for t in tris.chunks(3) {
        assert!(t[0] != t[1] && t[0] != t[2] && t[1] != t[2]);
    }
}

#[test]
fn triangulating_a_concave_polygon() {
    // An L-shape: 6 corners, 4 triangles.
    let ell = vec![v(0, 0), v(20, 0), v(20, 10), v(10, 10), v(10, 20), v(0, 20)];
    let tris = triangulate(&ell).expect("an L-shape is triangulable");
    assert_eq!(tris.len(), 3 * (6 - 2));
    assert!(tris.iter().all(|&i| i < 6));
}

#[test]
fn collinear_points_are_degenerate() {
    let line = vec![v(0, 0), v(5, 0), v(10, 0)];
    assert!(triangulate(&line).is_none());
}

#[test]
fn clockwise_polygons_triangulate_too() {
    let square = vec![v(0, 10), v(10, 10), v(10, 0), v(0, 0)];
    let tris = triangulate(&square).expect("winding order must not matter");
    assert_eq!(tris.len(), 6);
}

#[test]
fn first_hole_builds_with_anchors_in_half_units() {
    let raw = level_1();
    let level = build_level(&raw).expect("the shipped hole must build");
    // The outline closes on itself, so the 11-point list is a 10-gon ring.
    assert_eq!(level.triangles.len(), 3 * (10 - 2));
    assert!(level.triangles.iter().all(|&i| i < 10));
    // Goal pocket corner: point 4 of the centred cloud.
    assert_eq!(level.goal_bottom_left, v(480, 440));
    // Tee: point 0, shifted by the doubled (50, 0) offset and the ball
    // radius (15 half-units) upward.
    assert_eq!(level.tee, v(-620, 505));
}

#[test]
fn goal_index_out_of_range_is_reported() {
    let mut raw = level_1();
    raw.goal_index = 11;
    assert_eq!(build_level(&raw).err(), Some(BuildError::GoalIndexOutOfRange));
}

#[test]
fn empty_outline_is_reported() {
    let raw = RawLevelData { directions: vec![], goal_index: 0, tee: v(0, 0) };
    assert_eq!(build_level(&raw).err(), Some(BuildError::EmptyOutline));
}

#[test]
fn an_oversized_outline_is_reported() {
    let raw = RawLevelData {
        directions: vec![Vec2i { x: 1, y: 1 }; 1001],
        goal_index: 0,
        tee: v(0, 0),
    };
    assert_eq!(build_level(&raw).err(), Some(BuildError::TooManyVertices));
}

#[test]
fn oversized_step_is_reported() {
    let raw = RawLevelData {
        directions: vec![v(0, 0), v(2_000_000, 0), v(0, 5)],
        goal_index: 0,
        tee: v(0, 0),
    };
    assert_eq!(build_level(&raw).err(), Some(BuildError::StepOutOfRange));
}

#[test]
fn zero_area_outline_is_degenerate() {
    let raw = RawLevelData {
        directions: vec![v(0, 0), v(10, 0), v(-10, 0), v(10, 0)],
        goal_index: 0,
        tee: v(0, 0),
    };
    assert_eq!(build_level(&raw).err(), Some(BuildError::DegeneratePolygon));
}

#[test]
fn the_whole_course_loads() {
    let levels = load_levels().expect("the shipped course must load");
    assert_eq!(levels.0.len(), 3);
    // Holes 1 and 2 are 10-gon rings, hole 3 a 14-gon ring.
    assert_eq!(levels.0[0].triangles.len(), 3 * (10 - 2));
    assert_eq!(levels.0[1].triangles.len(), 3 * (10 - 2));
    assert_eq!(levels.0[2].triangles.len(), 3 * (14 - 2));
}

#[test]
fn course_data_shapes() {
    assert_eq!(level_1().directions.len(), 11);
    assert_eq!(level_2().directions.len(), 11);
    assert_eq!(level_3().directions.len(), 15);
    assert_eq!(level_1().goal_index, 4);
    assert_eq!(level_3().goal_index, 7);
}

#[test]
fn the_general_builder_agrees_with_the_shipped_course() {
    // The shipped course carries its triangle lists precomputed; the
    // general run-time builder must produce the very same holes from the
    // same descriptors.
    let levels = load_levels().expect("the shipped course must load");
    for (raw, shipped) in [level_1(), level_2(), level_3()].into_iter().zip(levels.0.iter()) {
        let built = build_level(&raw).expect("the shipped hole must build");
        assert_eq!(built.points, shipped.points);
        assert_eq!(built.goal_bottom_left, shipped.goal_bottom_left);
        assert_eq!(built.tee, shipped.tee);
        assert_eq!(built.triangles, shipped.triangles);
    }
}
