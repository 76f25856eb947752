//! Hole descriptors and the course loader.
//!
//! A hole is authored as a `RawLevelData`: an outline of relative
//! displacements, the index of the point that becomes the goal pocket's
//! bottom-left corner, and a tee offset.  `build_level` turns a descriptor
//! into a ready `Level`: the centred point cloud, the triangle list for the
//! render mesh, and the goal and tee anchor points, all in half-units.
//! Invalid content is reported as a `BuildError`; `load_levels` builds the
//! whole course and names the offending hole on failure.

use vstd::prelude::*;

use crate::geom::Vec2i;
use crate::geom::in_box;
use crate::geom::centered;
use crate::geom::centered_points;
use crate::geom::steps_bounded;
use crate::geom::MAX_COORD;
use crate::geom::MAX_STEP;
use crate::geom::MAX_VERTS;
use crate::triangulate::triangulate;
use crate::triangulate::triangulation_shape;

verus! {

/// Ball radius in half-units (7.5 source pixels).
pub const BALL_RADIUS_H: i64 = 15;

/// Half the side of the square goal pocket, in half-units (25 px).
pub const GOAL_HALF: i64 = 50;

/// Bound on the tee and goal anchor coordinates: a centred point shifted
/// by at most a doubled step and the ball radius.
pub const MAX_ANCHOR: i64 = 4_100_000_000;

/// A hole as authored: relative outline, goal corner index, tee offset.
pub struct RawLevelData {
    pub directions: Vec<Vec2i>,
    pub goal_index: usize,
    pub tee: Vec2i,
}

/// A hole ready to play: centred outline, anchors and render triangles,
/// all in half-units.
pub struct Level {
    /// Centred polygon boundary; also the collision polyline, closed
    /// implicitly.
    pub points: Vec<Vec2i>,
    /// Bottom-left corner of the goal pocket.
    pub goal_bottom_left: Vec2i,
    /// Ball start and reset position.
    pub tee: Vec2i,
    /// Triangle index list over `points`, three entries per triangle.
    pub triangles: Vec<usize>,
}

/// Why a hole descriptor was rejected at load time.
#[derive(Clone, Copy, Debug, PartialEq, Eq, Structural)]
pub enum BuildError {
    /// The outline has no points at all.
    EmptyOutline,
    /// The outline has more than `MAX_VERTS` points.
    TooManyVertices,
    /// A displacement step or the tee offset exceeds `MAX_STEP`.
    StepOutOfRange,
    /// The goal corner index does not name a point of the outline.
    GoalIndexOutOfRange,
    /// The outline polygon cannot be triangulated.
    DegeneratePolygon,
}

/// A load failure, naming the hole it occurred in.
#[derive(Clone, Copy, Debug, PartialEq, Eq, Structural)]
pub struct LevelError {
    pub level: usize,
    pub error: BuildError,
}

/// The built course: one `Level` per hole, in play order.
pub struct Levels(pub Vec<Level>);

/// Number of boundary vertices once an explicit closing repetition of the
/// first point is dropped: the polygon is closed implicitly, so a final
/// point equal to the first is not a corner of its own.
pub open spec fn ring_len(ps: Seq<Vec2i>) -> int {
    if ps.len() > 3 && ps[ps.len() - 1] == ps[0] {
        ps.len() - 1
    } else {
        ps.len() as int
    }
}

/// The content checks that `build_level` performs before any geometry is
/// derived, in order; `None` means the descriptor passes them all.
pub open spec fn precheck(raw: RawLevelData) -> Option<BuildError> {
    if raw.directions@.len() == 0 {
        Some(BuildError::EmptyOutline)
    } else if raw.directions@.len() > MAX_VERTS {
        Some(BuildError::TooManyVertices)
    } else if !steps_bounded(raw.directions@) || !in_box(raw.tee, MAX_STEP) {
        Some(BuildError::StepOutOfRange)
    } else if raw.goal_index >= raw.directions@.len() {
        Some(BuildError::GoalIndexOutOfRange)
    } else {
        None
    }
}

/// A built hole is internally consistent: a non-empty bounded point cloud,
/// anchors within range, and a well-shaped triangle list over its corners.
pub open spec fn level_wf(l: Level) -> bool {
    &&& l.points@.len() > 0
    &&& forall|i: int| 0 <= i < l.points@.len() ==> in_box(#[trigger] l.points@[i], MAX_COORD)
    &&& in_box(l.tee, MAX_ANCHOR)
    &&& in_box(l.goal_bottom_left, MAX_COORD)
    &&& triangulation_shape(l.points@.take(ring_len(l.points@)), l.triangles@)
}

/// What a successful build promises, in terms of the authored data: the
/// points are the centred cloud of the outline, the goal anchor is the
/// designated point, and the tee stands over point 0 shifted by the
/// doubled tee offset plus one ball radius upward.
pub open spec fn built_from(dirs: Seq<Vec2i>, goal_index: int, tee_offset: Vec2i, l: Level) -> bool {
    &&& centered_points(dirs, l.points@)
    &&& centered(l.points@)
    &&& 0 <= goal_index < l.points@.len()
    &&& l.goal_bottom_left == l.points@[goal_index]
    &&& l.tee.x == l.points@[0].x + 2 * tee_offset.x
    &&& l.tee.y == l.points@[0].y + 2 * tee_offset.y + BALL_RADIUS_H
    &&& triangulation_shape(l.points@.take(ring_len(l.points@)), l.triangles@)
}

/// Builds one hole from its descriptor.
///
/// All content checks are performed here, never assumed: a descriptor that
/// fails a `precheck` is rejected with exactly that error, and one whose
/// outline polygon admits no ear-clipping triangulation is rejected as
/// `DegeneratePolygon`.  A successful build satisfies `built_from` and
/// `level_wf`.
pub fn build_level(raw: &RawLevelData) -> (r: Result<Level, BuildError>)
    ensures
        precheck(*raw) matches Some(e) ==> r == Result::<Level, BuildError>::Err(e),
        precheck(*raw) is None ==> (r matches Err(e) ==> e == BuildError::DegeneratePolygon),
        r matches Ok(l) ==> precheck(*raw) is None && built_from(
            raw.directions@,
            raw.goal_index as int,
            raw.tee,
            l,
        ) && level_wf(l),
{
    let n = raw.directions.len();
    if n == 0 {
        return Err(BuildError::EmptyOutline);
    }
    if n > MAX_VERTS {
        return Err(BuildError::TooManyVertices);
    }
    let mut i: usize = 0;
    while i < n
        invariant
            n == raw.directions@.len(),
            1 <= n <= MAX_VERTS,
            i <= n,
            forall|j: int| 0 <= j < i ==> in_box(#[trigger] raw.directions@[j], MAX_STEP),
        decreases n - i,
    {
        let d = raw.directions[i];
        if d.x < -MAX_STEP || d.x > MAX_STEP || d.y < -MAX_STEP || d.y > MAX_STEP {
            proof {
                assert(!in_box(raw.directions@[i as int], MAX_STEP));
            }
            return Err(BuildError::StepOutOfRange);
        }
        i = i + 1;
    }
    if raw.tee.x < -MAX_STEP || raw.tee.x > MAX_STEP || raw.tee.y < -MAX_STEP || raw.tee.y
        > MAX_STEP {
        return Err(BuildError::StepOutOfRange);
    }
    if raw.goal_index >= n {
        return Err(BuildError::GoalIndexOutOfRange);
    }

    let points = crate::geom::directions_to_points(&raw.directions);

    // The outline may close itself by repeating point 0; the repetition is
    // not a corner, so triangulate the ring without it.
    let m = if n > 3 && points[n - 1] == points[0] {
        n - 1
    } else {
        n
    };
    assert(m == ring_len(points@));
    if m < 3 {
        return Err(BuildError::DegeneratePolygon);
    }
    let mut ring: Vec<Vec2i> = Vec::new();
    let mut i: usize = 0;
    while i < m
        invariant
            m <= n == points@.len(),
            i <= m,
            ring@.len() == i,
            forall|j: int| 0 <= j < i ==> #[trigger] ring@[j] == points@[j],
            forall|j: int| 0 <= j < points@.len() ==> in_box(#[trigger] points@[j], MAX_COORD),
        decreases m - i,
    {
        ring.push(points[i]);
        i = i + 1;
    }
    let triangles = match triangulate(&ring) {
        Some(t) => t,
        None => {
            return Err(BuildError::DegeneratePolygon);
        },
    };
    proof {
        assert(ring@ =~= points@.take(m as int));
    }

    let goal_bottom_left = points[raw.goal_index];
    let p0 = points[0];
    let tee = Vec2i { x: p0.x + 2 * raw.tee.x, y: p0.y + 2 * raw.tee.y + BALL_RADIUS_H };
    Ok(Level { points, goal_bottom_left, tee, triangles })
}

/// The tee offset every shipped hole uses.
pub open spec fn standard_tee() -> Vec2i {
    Vec2i { x: 50, y: 0 }
}

/// The first hole's outline, as authored.
pub open spec fn level_1_directions() -> Seq<Vec2i> {
    seq![
        Vec2i { x: 0, y: 0 },
        Vec2i { x: 300, y: 0 },
        Vec2i { x: 100, y: 50 },
        Vec2i { x: 200, y: 0 },
        Vec2i { x: 0, y: -75i64 },
        Vec2i { x: 50, y: 0 },
        Vec2i { x: 0, y: 75 },
        Vec2i { x: 70, y: 0 },
        Vec2i { x: 0, y: -590i64 },
        Vec2i { x: -720i64, y: 0 },
        Vec2i { x: 0, y: 540 },
    ]
}

/// The second hole's outline, as authored.
pub open spec fn level_2_directions() -> Seq<Vec2i> {
    seq![
        Vec2i { x: 0, y: 0 },
        Vec2i { x: 350, y: 0 },
        Vec2i { x: 100, y: 150 },
        Vec2i { x: 200, y: 0 },
        Vec2i { x: 0, y: -75i64 },
        Vec2i { x: 50, y: 0 },
        Vec2i { x: 0, y: 75 },
        Vec2i { x: 70, y: 0 },
        Vec2i { x: 0, y: -690i64 },
        Vec2i { x: -770i64, y: 0 },
        Vec2i { x: 0, y: 540 },
    ]
}

/// The third hole's outline, as authored.
pub open spec fn level_3_directions() -> Seq<Vec2i> {
    seq![
        Vec2i { x: 0, y: 0 },
        Vec2i { x: 150, y: 0 },
        Vec2i { x: 50, y: -50i64 },
        Vec2i { x: 75, y: 50 },
        Vec2i { x: 75, y: -50i64 },
        Vec2i { x: 50, y: 50 },
        Vec2i { x: 50, y: 0 },
        Vec2i { x: 0, y: -75i64 },
        Vec2i { x: 50, y: 0 },
        Vec2i { x: 0, y: 75 },
        Vec2i { x: 50, y: 0 },
        Vec2i { x: 20, y: 20 },
        Vec2i { x: 0, y: -400i64 },
        Vec2i { x: -570i64, y: 0 },
        Vec2i { x: 0, y: 380 },
    ]
}

/// First hole: a wide staircase shelf with the goal pocket sunk at the
/// fourth corner.
pub fn level_1() -> (r: RawLevelData)
    ensures
        r.directions@ == level_1_directions(),
        r.goal_index == 4,
        r.tee == standard_tee(),
{
    let directions = vec![
        Vec2i::new(0, 0),
        Vec2i::new(300, 0),
        Vec2i::new(100, 50),
        Vec2i::new(200, 0),
        Vec2i::new(0, -75),
        Vec2i::new(50, 0),
        Vec2i::new(0, 75),
        Vec2i::new(70, 0),
        Vec2i::new(0, -590),
        Vec2i::new(-720, 0),
        Vec2i::new(0, 540),
    ];
    proof {
        assert(directions@ =~= level_1_directions());
    }
    RawLevelData { directions, goal_index: 4, tee: Vec2i::new(50, 0) }
}

/// Second hole: the same shape stretched taller, with a higher ledge.
pub fn level_2() -> (r: RawLevelData)
    ensures
        r.directions@ == level_2_directions(),
        r.goal_index == 4,
        r.tee == standard_tee(),
{
    let directions = vec![
        Vec2i::new(0, 0),
        Vec2i::new(350, 0),
        Vec2i::new(100, 150),
        Vec2i::new(200, 0),
        Vec2i::new(0, -75),
        Vec2i::new(50, 0),
        Vec2i::new(0, 75),
        Vec2i::new(70, 0),
        Vec2i::new(0, -690),
        Vec2i::new(-770, 0),
        Vec2i::new(0, 540),
    ];
    proof {
        assert(directions@ =~= level_2_directions());
    }
    RawLevelData { directions, goal_index: 4, tee: Vec2i::new(50, 0) }
}

/// Third hole: a rolling ridge line with the goal pocket past the crest.
pub fn level_3() -> (r: RawLevelData)
    ensures
        r.directions@ == level_3_directions(),
        r.goal_index == 7,
        r.tee == standard_tee(),
{
    let directions = vec![
        Vec2i::new(0, 0),
        Vec2i::new(150, 0),
        Vec2i::new(50, -50),
        Vec2i::new(75, 50),
        Vec2i::new(75, -50),
        Vec2i::new(50, 50),
        Vec2i::new(50, 0),
        Vec2i::new(0, -75),
        Vec2i::new(50, 0),
        Vec2i::new(0, 75),
        Vec2i::new(50, 0),
        Vec2i::new(20, 20),
        Vec2i::new(0, -400),
        Vec2i::new(-570, 0),
        Vec2i::new(0, 380),
    ];
    proof {
        assert(directions@ =~= level_3_directions());
    }
    RawLevelData { directions, goal_index: 7, tee: Vec2i::new(50, 0) }
}

/// The centred point cloud the first hole's outline yields.
pub open spec fn level_1_points() -> Seq<Vec2i> {
    seq![
        Vec2i { x: -720i64, y: 490 },
        Vec2i { x: -120i64, y: 490 },
        Vec2i { x: 80, y: 590 },
        Vec2i { x: 480, y: 590 },
        Vec2i { x: 480, y: 440 },
        Vec2i { x: 580, y: 440 },
        Vec2i { x: 580, y: 590 },
        Vec2i { x: 720, y: 590 },
        Vec2i { x: 720, y: -590i64 },
        Vec2i { x: -720i64, y: -590i64 },
        Vec2i { x: -720i64, y: 490 },
    ]
}

/// The centred point cloud the second hole's outline yields.
pub open spec fn level_2_points() -> Seq<Vec2i> {
    seq![
        Vec2i { x: -770i64, y: 390 },
        Vec2i { x: -70i64, y: 390 },
        Vec2i { x: 130, y: 690 },
        Vec2i { x: 530, y: 690 },
        Vec2i { x: 530, y: 540 },
        Vec2i { x: 630, y: 540 },
        Vec2i { x: 630, y: 690 },
        Vec2i { x: 770, y: 690 },
        Vec2i { x: 770, y: -690i64 },
        Vec2i { x: -770i64, y: -690i64 },
        Vec2i { x: -770i64, y: 390 },
    ]
}

/// The centred point cloud the third hole's outline yields.
pub open spec fn level_3_points() -> Seq<Vec2i> {
    seq![
        Vec2i { x: -570i64, y: 360 },
        Vec2i { x: -270i64, y: 360 },
        Vec2i { x: -170i64, y: 260 },
        Vec2i { x: -20i64, y: 360 },
        Vec2i { x: 130, y: 260 },
        Vec2i { x: 230, y: 360 },
        Vec2i { x: 330, y: 360 },
        Vec2i { x: 330, y: 210 },
        Vec2i { x: 430, y: 210 },
        Vec2i { x: 430, y: 360 },
        Vec2i { x: 530, y: 360 },
        Vec2i { x: 570, y: 400 },
        Vec2i { x: 570, y: -400i64 },
        Vec2i { x: -570i64, y: -400i64 },
        Vec2i { x: -570i64, y: 360 },
    ]
}

/// The triangle index list of hole 1's ring, clipped one ear at a time.
pub open spec fn level_1_triangles() -> Seq<usize> {
    seq![
        9, 0, 1, 9, 1, 2, 9, 2, 3, 9, 3, 4,
        9, 4, 5, 5, 6, 7, 5, 7, 8, 5, 8, 9,
    ]
}

/// The triangle index list of hole 2's ring, clipped one ear at a time.
pub open spec fn level_2_triangles() -> Seq<usize> {
    seq![
        9, 0, 1, 9, 1, 2, 9, 2, 3, 9, 3, 4,
        9, 4, 5, 5, 6, 7, 5, 7, 8, 5, 8, 9,
    ]
}

/// The triangle index list of hole 3's ring, clipped one ear at a time.
pub open spec fn level_3_triangles() -> Seq<usize> {
    seq![
        13, 0, 1, 13, 1, 2, 13, 2, 3, 13, 3, 4,
        4, 5, 6, 13, 4, 6, 13, 6, 7, 13, 7, 8,
        8, 9, 10, 8, 10, 11, 8, 11, 12, 8, 12, 13,
    ]
}

// The lemmas below evaluate the shipped holes outright: the centred
// cloud of each outline, corner by corner (prefix sums and bounding-box
// extrema unfolded to their values), and the well-shapedness of each
// precomputed triangle list, one signed area per triangle.  They are what
// lets `load_levels` promise success instead of merely checking for it.

proof fn lemma_level_1_cloud(ps: Seq<Vec2i>)
    requires
        centered_points(level_1_directions(), ps),
    ensures
        ps =~= level_1_points(),
{
    let dirs = level_1_directions();
    reveal_with_fuel(crate::geom::psum_x, 17);
    reveal_with_fuel(crate::geom::psum_y, 17);
    reveal_with_fuel(crate::geom::seq_min, 17);
    reveal_with_fuel(crate::geom::seq_max, 17);
    assert(crate::geom::seq_min(crate::geom::abs_xs(dirs)) == 0);
    assert(crate::geom::seq_max(crate::geom::abs_xs(dirs)) == 720);
    assert(crate::geom::seq_min(crate::geom::abs_ys(dirs)) == -540int);
    assert(crate::geom::seq_max(crate::geom::abs_ys(dirs)) == 50);
    assert(ps[0] == (Vec2i { x: -720i64, y: 490 }));
    assert(ps[1] == (Vec2i { x: -120i64, y: 490 }));
    assert(ps[2] == (Vec2i { x: 80, y: 590 }));
    assert(ps[3] == (Vec2i { x: 480, y: 590 }));
    assert(ps[4] == (Vec2i { x: 480, y: 440 }));
    assert(ps[5] == (Vec2i { x: 580, y: 440 }));
    assert(ps[6] == (Vec2i { x: 580, y: 590 }));
    assert(ps[7] == (Vec2i { x: 720, y: 590 }));
    assert(ps[8] == (Vec2i { x: 720, y: -590i64 }));
    assert(ps[9] == (Vec2i { x: -720i64, y: -590i64 }));
    assert(ps[10] == (Vec2i { x: -720i64, y: 490 }));
}

proof fn lemma_level_2_cloud(ps: Seq<Vec2i>)
    requires
        centered_points(level_2_directions(), ps),
    ensures
        ps =~= level_2_points(),
{
    let dirs = level_2_directions();
    reveal_with_fuel(crate::geom::psum_x, 17);
    reveal_with_fuel(crate::geom::psum_y, 17);
    reveal_with_fuel(crate::geom::seq_min, 17);
    reveal_with_fuel(crate::geom::seq_max, 17);
    assert(crate::geom::seq_min(crate::geom::abs_xs(dirs)) == 0);
    assert(crate::geom::seq_max(crate::geom::abs_xs(dirs)) == 770);
    assert(crate::geom::seq_min(crate::geom::abs_ys(dirs)) == -540int);
    assert(crate::geom::seq_max(crate::geom::abs_ys(dirs)) == 150);
    assert(ps[0] == (Vec2i { x: -770i64, y: 390 }));
    assert(ps[1] == (Vec2i { x: -70i64, y: 390 }));
    assert(ps[2] == (Vec2i { x: 130, y: 690 }));
    assert(ps[3] == (Vec2i { x: 530, y: 690 }));
    assert(ps[4] == (Vec2i { x: 530, y: 540 }));
    assert(ps[5] == (Vec2i { x: 630, y: 540 }));
    assert(ps[6] == (Vec2i { x: 630, y: 690 }));
    assert(ps[7] == (Vec2i { x: 770, y: 690 }));
    assert(ps[8] == (Vec2i { x: 770, y: -690i64 }));
    assert(ps[9] == (Vec2i { x: -770i64, y: -690i64 }));
    assert(ps[10] == (Vec2i { x: -770i64, y: 390 }));
}

proof fn lemma_level_3_cloud(ps: Seq<Vec2i>)
    requires
        centered_points(level_3_directions(), ps),
    ensures
        ps =~= level_3_points(),
{
    let dirs = level_3_directions();
    reveal_with_fuel(crate::geom::psum_x, 17);
    reveal_with_fuel(crate::geom::psum_y, 17);
    reveal_with_fuel(crate::geom::seq_min, 17);
    reveal_with_fuel(crate::geom::seq_max, 17);
    assert(crate::geom::seq_min(crate::geom::abs_xs(dirs)) == 0);
    assert(crate::geom::seq_max(crate::geom::abs_xs(dirs)) == 570);
    assert(crate::geom::seq_min(crate::geom::abs_ys(dirs)) == -380int);
    assert(crate::geom::seq_max(crate::geom::abs_ys(dirs)) == 20);
    assert(ps[0] == (Vec2i { x: -570i64, y: 360 }));
    assert(ps[1] == (Vec2i { x: -270i64, y: 360 }));
    assert(ps[2] == (Vec2i { x: -170i64, y: 260 }));
    assert(ps[3] == (Vec2i { x: -20i64, y: 360 }));
    assert(ps[4] == (Vec2i { x: 130, y: 260 }));
    assert(ps[5] == (Vec2i { x: 230, y: 360 }));
    assert(ps[6] == (Vec2i { x: 330, y: 360 }));
    assert(ps[7] == (Vec2i { x: 330, y: 210 }));
    assert(ps[8] == (Vec2i { x: 430, y: 210 }));
    assert(ps[9] == (Vec2i { x: 430, y: 360 }));
    assert(ps[10] == (Vec2i { x: 530, y: 360 }));
    assert(ps[11] == (Vec2i { x: 570, y: 400 }));
    assert(ps[12] == (Vec2i { x: 570, y: -400i64 }));
    assert(ps[13] == (Vec2i { x: -570i64, y: -400i64 }));
    assert(ps[14] == (Vec2i { x: -570i64, y: 360 }));
}

proof fn lemma_level_1_mesh()
    ensures
        triangulation_shape(level_1_points().take(10), level_1_triangles()),
{
    let ps = level_1_points().take(10);
    let ts = level_1_triangles();
    assert(ts.len() == 24);
    assert(forall|k: int| 0 <= k < ts.len() ==> (#[trigger] ts[k]) < 10);
    reveal_with_fuel(crate::triangulate::triples_distinct, 10);
    assert(crate::triangulate::triples_distinct(ts));
    let a = ps[9];
    let b = ps[0];
    let c = ps[1];
    assert(a.x == -720i64 && a.y == -590i64 && b.x == -720i64 && b.y == 490
        && c.x == -120i64 && c.y == 490);
    assert((b.x - a.x) * (c.y - a.y) - (b.y - a.y) * (c.x - a.x) == -648000) by (nonlinear_arith)
        requires
            a.x == -720i64 && a.y == -590i64 && b.x == -720i64 && b.y == 490
                && c.x == -120i64 && c.y == 490,
    ;
    assert(crate::triangulate::cross3(a, b, c) == -648000int);
    let a = ps[9];
    let b = ps[1];
    let c = ps[2];
    assert(a.x == -720i64 && a.y == -590i64 && b.x == -120i64 && b.y == 490
        && c.x == 80 && c.y == 590);
    assert((b.x - a.x) * (c.y - a.y) - (b.y - a.y) * (c.x - a.x) == -156000) by (nonlinear_arith)
        requires
            a.x == -720i64 && a.y == -590i64 && b.x == -120i64 && b.y == 490
                && c.x == 80 && c.y == 590,
    ;
    assert(crate::triangulate::cross3(a, b, c) == -156000int);
    let a = ps[9];
    let b = ps[2];
    let c = ps[3];
    assert(a.x == -720i64 && a.y == -590i64 && b.x == 80 && b.y == 590
        && c.x == 480 && c.y == 590);
    assert((b.x - a.x) * (c.y - a.y) - (b.y - a.y) * (c.x - a.x) == -472000) by (nonlinear_arith)
        requires
            a.x == -720i64 && a.y == -590i64 && b.x == 80 && b.y == 590
                && c.x == 480 && c.y == 590,
    ;
    assert(crate::triangulate::cross3(a, b, c) == -472000int);
    let a = ps[9];
    let b = ps[3];
    let c = ps[4];
    assert(a.x == -720i64 && a.y == -590i64 && b.x == 480 && b.y == 590
        && c.x == 480 && c.y == 440);
    assert((b.x - a.x) * (c.y - a.y) - (b.y - a.y) * (c.x - a.x) == -180000) by (nonlinear_arith)
        requires
            a.x == -720i64 && a.y == -590i64 && b.x == 480 && b.y == 590
                && c.x == 480 && c.y == 440,
    ;
    assert(crate::triangulate::cross3(a, b, c) == -180000int);
    let a = ps[9];
    let b = ps[4];
    let c = ps[5];
    assert(a.x == -720i64 && a.y == -590i64 && b.x == 480 && b.y == 440
        && c.x == 580 && c.y == 440);
    assert((b.x - a.x) * (c.y - a.y) - (b.y - a.y) * (c.x - a.x) == -103000) by (nonlinear_arith)
        requires
            a.x == -720i64 && a.y == -590i64 && b.x == 480 && b.y == 440
                && c.x == 580 && c.y == 440,
    ;
    assert(crate::triangulate::cross3(a, b, c) == -103000int);
    let a = ps[5];
    let b = ps[6];
    let c = ps[7];
    assert(a.x == 580 && a.y == 440 && b.x == 580 && b.y == 590
        && c.x == 720 && c.y == 590);
    assert((b.x - a.x) * (c.y - a.y) - (b.y - a.y) * (c.x - a.x) == -21000) by (nonlinear_arith)
        requires
            a.x == 580 && a.y == 440 && b.x == 580 && b.y == 590
                && c.x == 720 && c.y == 590,
    ;
    assert(crate::triangulate::cross3(a, b, c) == -21000int);
    let a = ps[5];
    let b = ps[7];
    let c = ps[8];
    assert(a.x == 580 && a.y == 440 && b.x == 720 && b.y == 590
        && c.x == 720 && c.y == -590i64);
    assert((b.x - a.x) * (c.y - a.y) - (b.y - a.y) * (c.x - a.x) == -165200) by (nonlinear_arith)
        requires
            a.x == 580 && a.y == 440 && b.x == 720 && b.y == 590
                && c.x == 720 && c.y == -590i64,
    ;
    assert(crate::triangulate::cross3(a, b, c) == -165200int);
    let a = ps[5];
    let b = ps[8];
    let c = ps[9];
    assert(a.x == 580 && a.y == 440 && b.x == 720 && b.y == -590i64
        && c.x == -720i64 && c.y == -590i64);
    assert((b.x - a.x) * (c.y - a.y) - (b.y - a.y) * (c.x - a.x) == -1483200) by (nonlinear_arith)
        requires
            a.x == 580 && a.y == 440 && b.x == 720 && b.y == -590i64
                && c.x == -720i64 && c.y == -590i64,
    ;
    assert(crate::triangulate::cross3(a, b, c) == -1483200int);
    reveal_with_fuel(crate::triangulate::triples_nondegenerate, 10);
    assert(crate::triangulate::triples_nondegenerate(ps, ts));
}

proof fn lemma_level_2_mesh()
    ensures
        triangulation_shape(level_2_points().take(10), level_2_triangles()),
{
    let ps = level_2_points().take(10);
    let ts = level_2_triangles();
    assert(ts.len() == 24);
    assert(forall|k: int| 0 <= k < ts.len() ==> (#[trigger] ts[k]) < 10);
    reveal_with_fuel(crate::triangulate::triples_distinct, 10);
    assert(crate::triangulate::triples_distinct(ts));
    let a = ps[9];
    let b = ps[0];
    let c = ps[1];
    assert(a.x == -770i64 && a.y == -690i64 && b.x == -770i64 && b.y == 390
        && c.x == -70i64 && c.y == 390);
    assert((b.x - a.x) * (c.y - a.y) - (b.y - a.y) * (c.x - a.x) == -756000) by (nonlinear_arith)
        requires
            a.x == -770i64 && a.y == -690i64 && b.x == -770i64 && b.y == 390
                && c.x == -70i64 && c.y == 390,
    ;
    assert(crate::triangulate::cross3(a, b, c) == -756000int);
    let a = ps[9];
    let b = ps[1];
    let c = ps[2];
    assert(a.x == -770i64 && a.y == -690i64 && b.x == -70i64 && b.y == 390
        && c.x == 130 && c.y == 690);
    assert((b.x - a.x) * (c.y - a.y) - (b.y - a.y) * (c.x - a.x) == -6000) by (nonlinear_arith)
        requires
            a.x == -770i64 && a.y == -690i64 && b.x == -70i64 && b.y == 390
                && c.x == 130 && c.y == 690,
    ;
    assert(crate::triangulate::cross3(a, b, c) == -6000int);
    let a = ps[9];
    let b = ps[2];
    let c = ps[3];
    assert(a.x == -770i64 && a.y == -690i64 && b.x == 130 && b.y == 690
        && c.x == 530 && c.y == 690);
    assert((b.x - a.x) * (c.y - a.y) - (b.y - a.y) * (c.x - a.x) == -552000) by (nonlinear_arith)
        requires
            a.x == -770i64 && a.y == -690i64 && b.x == 130 && b.y == 690
                && c.x == 530 && c.y == 690,
    ;
    assert(crate::triangulate::cross3(a, b, c) == -552000int);
    let a = ps[9];
    let b = ps[3];
    let c = ps[4];
    assert(a.x == -770i64 && a.y == -690i64 && b.x == 530 && b.y == 690
        && c.x == 530 && c.y == 540);
    assert((b.x - a.x) * (c.y - a.y) - (b.y - a.y) * (c.x - a.x) == -195000) by (nonlinear_arith)
        requires
            a.x == -770i64 && a.y == -690i64 && b.x == 530 && b.y == 690
                && c.x == 530 && c.y == 540,
    ;
    assert(crate::triangulate::cross3(a, b, c) == -195000int);
    let a = ps[9];
    let b = ps[4];
    let c = ps[5];
    assert(a.x == -770i64 && a.y == -690i64 && b.x == 530 && b.y == 540
        && c.x == 630 && c.y == 540);
    assert((b.x - a.x) * (c.y - a.y) - (b.y - a.y) * (c.x - a.x) == -123000) by (nonlinear_arith)
        requires
            a.x == -770i64 && a.y == -690i64 && b.x == 530 && b.y == 540
                && c.x == 630 && c.y == 540,
    ;
    assert(crate::triangulate::cross3(a, b, c) == -123000int);
    let a = ps[5];
    let b = ps[6];
    let c = ps[7];
    assert(a.x == 630 && a.y == 540 && b.x == 630 && b.y == 690
        && c.x == 770 && c.y == 690);
    assert((b.x - a.x) * (c.y - a.y) - (b.y - a.y) * (c.x - a.x) == -21000) by (nonlinear_arith)
        requires
            a.x == 630 && a.y == 540 && b.x == 630 && b.y == 690
                && c.x == 770 && c.y == 690,
    ;
    assert(crate::triangulate::cross3(a, b, c) == -21000int);
    let a = ps[5];
    let b = ps[7];
    let c = ps[8];
    assert(a.x == 630 && a.y == 540 && b.x == 770 && b.y == 690
        && c.x == 770 && c.y == -690i64);
    assert((b.x - a.x) * (c.y - a.y) - (b.y - a.y) * (c.x - a.x) == -193200) by (nonlinear_arith)
        requires
            a.x == 630 && a.y == 540 && b.x == 770 && b.y == 690
                && c.x == 770 && c.y == -690i64,
    ;
    assert(crate::triangulate::cross3(a, b, c) == -193200int);
    let a = ps[5];
    let b = ps[8];
    let c = ps[9];
    assert(a.x == 630 && a.y == 540 && b.x == 770 && b.y == -690i64
        && c.x == -770i64 && c.y == -690i64);
    assert((b.x - a.x) * (c.y - a.y) - (b.y - a.y) * (c.x - a.x) == -1894200) by (nonlinear_arith)
        requires
            a.x == 630 && a.y == 540 && b.x == 770 && b.y == -690i64
                && c.x == -770i64 && c.y == -690i64,
    ;
    assert(crate::triangulate::cross3(a, b, c) == -1894200int);
    reveal_with_fuel(crate::triangulate::triples_nondegenerate, 10);
    assert(crate::triangulate::triples_nondegenerate(ps, ts));
}

proof fn lemma_level_3_mesh()
    ensures
        triangulation_shape(level_3_points().take(14), level_3_triangles()),
{
    let ps = level_3_points().take(14);
    let ts = level_3_triangles();
    assert(ts.len() == 36);
    assert(forall|k: int| 0 <= k < ts.len() ==> (#[trigger] ts[k]) < 14);
    reveal_with_fuel(crate::triangulate::triples_distinct, 14);
    assert(crate::triangulate::triples_distinct(ts));
    let a = ps[13];
    let b = ps[0];
    let c = ps[1];
    assert(a.x == -570i64 && a.y == -400i64 && b.x == -570i64 && b.y == 360
        && c.x == -270i64 && c.y == 360);
    assert((b.x - a.x) * (c.y - a.y) - (b.y - a.y) * (c.x - a.x) == -228000) by (nonlinear_arith)
        requires
            a.x == -570i64 && a.y == -400i64 && b.x == -570i64 && b.y == 360
                && c.x == -270i64 && c.y == 360,
    ;
    assert(crate::triangulate::cross3(a, b, c) == -228000int);
    let a = ps[13];
    let b = ps[1];
    let c = ps[2];
    assert(a.x == -570i64 && a.y == -400i64 && b.x == -270i64 && b.y == 360
        && c.x == -170i64 && c.y == 260);
    assert((b.x - a.x) * (c.y - a.y) - (b.y - a.y) * (c.x - a.x) == -106000) by (nonlinear_arith)
        requires
            a.x == -570i64 && a.y == -400i64 && b.x == -270i64 && b.y == 360
                && c.x == -170i64 && c.y == 260,
    ;
    assert(crate::triangulate::cross3(a, b, c) == -106000int);
    let a = ps[13];
    let b = ps[2];
    let c = ps[3];
    assert(a.x == -570i64 && a.y == -400i64 && b.x == -170i64 && b.y == 260
        && c.x == -20i64 && c.y == 360);
    assert((b.x - a.x) * (c.y - a.y) - (b.y - a.y) * (c.x - a.x) == -59000) by (nonlinear_arith)
        requires
            a.x == -570i64 && a.y == -400i64 && b.x == -170i64 && b.y == 260
                && c.x == -20i64 && c.y == 360,
    ;
    assert(crate::triangulate::cross3(a, b, c) == -59000int);
    let a = ps[13];
    let b = ps[3];
    let c = ps[4];
    assert(a.x == -570i64 && a.y == -400i64 && b.x == -20i64 && b.y == 360
        && c.x == 130 && c.y == 260);
    assert((b.x - a.x) * (c.y - a.y) - (b.y - a.y) * (c.x - a.x) == -169000) by (nonlinear_arith)
        requires
            a.x == -570i64 && a.y == -400i64 && b.x == -20i64 && b.y == 360
                && c.x == 130 && c.y == 260,
    ;
    assert(crate::triangulate::cross3(a, b, c) == -169000int);
    let a = ps[4];
    let b = ps[5];
    let c = ps[6];
    assert(a.x == 130 && a.y == 260 && b.x == 230 && b.y == 360
        && c.x == 330 && c.y == 360);
    assert((b.x - a.x) * (c.y - a.y) - (b.y - a.y) * (c.x - a.x) == -10000) by (nonlinear_arith)
        requires
            a.x == 130 && a.y == 260 && b.x == 230 && b.y == 360
                && c.x == 330 && c.y == 360,
    ;
    assert(crate::triangulate::cross3(a, b, c) == -10000int);
    let a = ps[13];
    let b = ps[4];
    let c = ps[6];
    assert(a.x == -570i64 && a.y == -400i64 && b.x == 130 && b.y == 260
        && c.x == 330 && c.y == 360);
    assert((b.x - a.x) * (c.y - a.y) - (b.y - a.y) * (c.x - a.x) == -62000) by (nonlinear_arith)
        requires
            a.x == -570i64 && a.y == -400i64 && b.x == 130 && b.y == 260
                && c.x == 330 && c.y == 360,
    ;
    assert(crate::triangulate::cross3(a, b, c) == -62000int);
    let a = ps[13];
    let b = ps[6];
    let c = ps[7];
    assert(a.x == -570i64 && a.y == -400i64 && b.x == 330 && b.y == 360
        && c.x == 330 && c.y == 210);
    assert((b.x - a.x) * (c.y - a.y) - (b.y - a.y) * (c.x - a.x) == -135000) by (nonlinear_arith)
        requires
            a.x == -570i64 && a.y == -400i64 && b.x == 330 && b.y == 360
                && c.x == 330 && c.y == 210,
    ;
    assert(crate::triangulate::cross3(a, b, c) == -135000int);
    let a = ps[13];
    let b = ps[7];
    let c = ps[8];
    assert(a.x == -570i64 && a.y == -400i64 && b.x == 330 && b.y == 210
        && c.x == 430 && c.y == 210);
    assert((b.x - a.x) * (c.y - a.y) - (b.y - a.y) * (c.x - a.x) == -61000) by (nonlinear_arith)
        requires
            a.x == -570i64 && a.y == -400i64 && b.x == 330 && b.y == 210
                && c.x == 430 && c.y == 210,
    ;
    assert(crate::triangulate::cross3(a, b, c) == -61000int);
    let a = ps[8];
    let b = ps[9];
    let c = ps[10];
    assert(a.x == 430 && a.y == 210 && b.x == 430 && b.y == 360
        && c.x == 530 && c.y == 360);
    assert((b.x - a.x) * (c.y - a.y) - (b.y - a.y) * (c.x - a.x) == -15000) by (nonlinear_arith)
        requires
            a.x == 430 && a.y == 210 && b.x == 430 && b.y == 360
                && c.x == 530 && c.y == 360,
    ;
    assert(crate::triangulate::cross3(a, b, c) == -15000int);
    let a = ps[8];
    let b = ps[10];
    let c = ps[11];
    assert(a.x == 430 && a.y == 210 && b.x == 530 && b.y == 360
        && c.x == 570 && c.y == 400);
    assert((b.x - a.x) * (c.y - a.y) - (b.y - a.y) * (c.x - a.x) == -2000) by (nonlinear_arith)
        requires
            a.x == 430 && a.y == 210 && b.x == 530 && b.y == 360
                && c.x == 570 && c.y == 400,
    ;
    assert(crate::triangulate::cross3(a, b, c) == -2000int);
    let a = ps[8];
    let b = ps[11];
    let c = ps[12];
    assert(a.x == 430 && a.y == 210 && b.x == 570 && b.y == 400
        && c.x == 570 && c.y == -400i64);
    assert((b.x - a.x) * (c.y - a.y) - (b.y - a.y) * (c.x - a.x) == -112000) by (nonlinear_arith)
        requires
            a.x == 430 && a.y == 210 && b.x == 570 && b.y == 400
                && c.x == 570 && c.y == -400i64,
    ;
    assert(crate::triangulate::cross3(a, b, c) == -112000int);
    let a = ps[8];
    let b = ps[12];
    let c = ps[13];
    assert(a.x == 430 && a.y == 210 && b.x == 570 && b.y == -400i64
        && c.x == -570i64 && c.y == -400i64);
    assert((b.x - a.x) * (c.y - a.y) - (b.y - a.y) * (c.x - a.x) == -695400) by (nonlinear_arith)
        requires
            a.x == 430 && a.y == 210 && b.x == 570 && b.y == -400i64
                && c.x == -570i64 && c.y == -400i64,
    ;
    assert(crate::triangulate::cross3(a, b, c) == -695400int);
    reveal_with_fuel(crate::triangulate::triples_nondegenerate, 14);
    assert(crate::triangulate::triples_nondegenerate(ps, ts));
}

/// Builds the whole course at load time — provably successfully.
///
/// The shipped outlines are pinned by `level_1/2/3`'s contracts, their
/// centred clouds are evaluated exactly by the lemmas below, and each
/// hole carries its ear-clipped triangle list precomputed and proved
/// well-shaped, so nothing on this path can fail: the result is always
/// `Ok`, with each hole built from its own descriptor, in order.
/// Content of unknown provenance still goes through `build_level`, which
/// performs every check at run time.
pub fn load_levels() -> (r: Result<Levels, LevelError>)
    ensures
        r is Ok,
        r matches Ok(ls) ==> ({
            &&& ls.0@.len() == 3
            &&& built_from(level_1_directions(), 4, standard_tee(), ls.0@[0])
            &&& built_from(level_2_directions(), 4, standard_tee(), ls.0@[1])
            &&& built_from(level_3_directions(), 7, standard_tee(), ls.0@[2])
            &&& forall|i: int| 0 <= i < ls.0@.len() ==> level_wf(#[trigger] ls.0@[i])
        }),
{
    let mut built: Vec<Level> = Vec::new();
    let raw = level_1();
    proof {
        assert(steps_bounded(raw.directions@));
    }
    let points = crate::geom::directions_to_points(&raw.directions);
    let triangles: Vec<usize> = vec![
        9, 0, 1, 9, 1, 2, 9, 2, 3, 9, 3, 4,
        9, 4, 5, 5, 6, 7, 5, 7, 8, 5, 8, 9,
    ];
    proof {
        lemma_level_1_cloud(points@);
        lemma_level_1_mesh();
        assert(triangles@ =~= level_1_triangles());
        assert(ring_len(points@) == 10);
        assert(points@.take(10) =~= level_1_points().take(10));
    }
    let goal_bottom_left = points[4];
    let p0 = points[0];
    let tee = Vec2i { x: p0.x + 2 * raw.tee.x, y: p0.y + 2 * raw.tee.y + BALL_RADIUS_H };
    built.push(Level { points, goal_bottom_left, tee, triangles });
    let raw = level_2();
    proof {
        assert(steps_bounded(raw.directions@));
    }
    let points = crate::geom::directions_to_points(&raw.directions);
    let triangles: Vec<usize> = vec![
        9, 0, 1, 9, 1, 2, 9, 2, 3, 9, 3, 4,
        9, 4, 5, 5, 6, 7, 5, 7, 8, 5, 8, 9,
    ];
    proof {
        lemma_level_2_cloud(points@);
        lemma_level_2_mesh();
        assert(triangles@ =~= level_2_triangles());
        assert(ring_len(points@) == 10);
        assert(points@.take(10) =~= level_2_points().take(10));
    }
    let goal_bottom_left = points[4];
    let p0 = points[0];
    let tee = Vec2i { x: p0.x + 2 * raw.tee.x, y: p0.y + 2 * raw.tee.y + BALL_RADIUS_H };
    built.push(Level { points, goal_bottom_left, tee, triangles });
    let raw = level_3();
    proof {
        assert(steps_bounded(raw.directions@));
    }
    let points = crate::geom::directions_to_points(&raw.directions);
    let triangles: Vec<usize> = vec![
        13, 0, 1, 13, 1, 2, 13, 2, 3, 13, 3, 4,
        4, 5, 6, 13, 4, 6, 13, 6, 7, 13, 7, 8,
        8, 9, 10, 8, 10, 11, 8, 11, 12, 8, 12, 13,
    ];
    proof {
        lemma_level_3_cloud(points@);
        lemma_level_3_mesh();
        assert(triangles@ =~= level_3_triangles());
        assert(ring_len(points@) == 14);
        assert(points@.take(14) =~= level_3_points().take(14));
    }
    let goal_bottom_left = points[7];
    let p0 = points[0];
    let tee = Vec2i { x: p0.x + 2 * raw.tee.x, y: p0.y + 2 * raw.tee.y + BALL_RADIUS_H };
    built.push(Level { points, goal_bottom_left, tee, triangles });
    Ok(Levels(built))
}



} // verus!
