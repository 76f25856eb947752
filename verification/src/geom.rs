//! Integer plane geometry: points, prefix sums, bounding-box centering.
//!
//! A hole is authored as a list of relative displacement vectors.  This
//! module turns such a list into an absolute point cloud and re-centres it
//! so that the bounding box of the result is symmetric about the origin.
//! Coordinates of the centred cloud are in half-units (twice the source
//! value), which keeps the bounding-box centre an exact integer.

use vstd::prelude::*;

verus! {

/// Most vertices a hole polygon may have.
pub const MAX_VERTS: usize = 1000;

/// Largest magnitude of one displacement step, per axis.
pub const MAX_STEP: i64 = 1_000_000;

/// Bound on every coordinate of an absolute (un-centred) point:
/// `MAX_VERTS * MAX_STEP`.
pub const MAX_ABS: i64 = 1_000_000_000;

/// Bound on every coordinate of a centred point cloud, per axis: centring
/// doubles an absolute coordinate and shifts it by at most `2 * MAX_ABS`.
pub const MAX_COORD: i64 = 4_000_000_000;

/// A point or displacement on the integer plane.
#[derive(Clone, Copy, Debug, PartialEq, Eq, Structural)]
pub struct Vec2i {
    pub x: i64,
    pub y: i64,
}

impl Vec2i {
    pub fn new(x: i64, y: i64) -> (r: Vec2i)
        ensures
            r.x == x,
            r.y == y,
    {
        Vec2i { x, y }
    }
}

/// Both coordinates of `p` lie within `[-m, m]`.
pub open spec fn in_box(p: Vec2i, m: i64) -> bool {
    -m <= p.x <= m && -m <= p.y <= m
}

/// The smaller of two integers.
pub open spec fn min2(a: int, b: int) -> int {
    if a <= b {
        a
    } else {
        b
    }
}

/// The larger of two integers.
pub open spec fn max2(a: int, b: int) -> int {
    if a <= b {
        b
    } else {
        a
    }
}

/// Sum of the `x` components of the first `i` displacements.
pub open spec fn psum_x(dirs: Seq<Vec2i>, i: int) -> int
    decreases i,
{
    if i <= 0 {
        0
    } else {
        psum_x(dirs, i - 1) + dirs[i - 1].x
    }
}

/// Sum of the `y` components of the first `i` displacements.
pub open spec fn psum_y(dirs: Seq<Vec2i>, i: int) -> int
    decreases i,
{
    if i <= 0 {
        0
    } else {
        psum_y(dirs, i - 1) + dirs[i - 1].y
    }
}

/// `x` coordinate of the `i`-th absolute point: the prefix sum through
/// displacement `i` inclusive.
pub open spec fn abs_x(dirs: Seq<Vec2i>, i: int) -> int {
    psum_x(dirs, i + 1)
}

/// `y` coordinate of the `i`-th absolute point.
pub open spec fn abs_y(dirs: Seq<Vec2i>, i: int) -> int {
    psum_y(dirs, i + 1)
}

/// Least element of a non-empty integer sequence.
pub open spec fn seq_min(s: Seq<int>) -> int
    recommends
        s.len() > 0,
    decreases s.len(),
{
    if s.len() <= 1 {
        s[0]
    } else {
        min2(s[0], seq_min(s.drop_first()))
    }
}

/// Greatest element of a non-empty integer sequence.
pub open spec fn seq_max(s: Seq<int>) -> int
    recommends
        s.len() > 0,
    decreases s.len(),
{
    if s.len() <= 1 {
        s[0]
    } else {
        max2(s[0], seq_max(s.drop_first()))
    }
}

/// The `x` coordinates of a point sequence.
pub open spec fn xs(ps: Seq<Vec2i>) -> Seq<int> {
    ps.map(|i: int, p: Vec2i| p.x as int)
}

/// The `y` coordinates of a point sequence.
pub open spec fn ys(ps: Seq<Vec2i>) -> Seq<int> {
    ps.map(|i: int, p: Vec2i| p.y as int)
}

/// The `x` coordinates of the absolute (un-centred) point cloud.
pub open spec fn abs_xs(dirs: Seq<Vec2i>) -> Seq<int> {
    Seq::new(dirs.len(), |i: int| abs_x(dirs, i))
}

/// The `y` coordinates of the absolute point cloud.
pub open spec fn abs_ys(dirs: Seq<Vec2i>) -> Seq<int> {
    Seq::new(dirs.len(), |i: int| abs_y(dirs, i))
}

/// The bounding box of `ps` is symmetric about the origin, per axis.
pub open spec fn centered(ps: Seq<Vec2i>) -> bool {
    &&& ps.len() > 0
    &&& seq_min(xs(ps)) + seq_max(xs(ps)) == 0
    &&& seq_min(ys(ps)) + seq_max(ys(ps)) == 0
}

/// Every displacement of `dirs` keeps within `MAX_STEP` per axis.
pub open spec fn steps_bounded(dirs: Seq<Vec2i>) -> bool {
    forall|i: int| 0 <= i < dirs.len() ==> in_box(#[trigger] dirs[i], MAX_STEP)
}

/// The centred point cloud that `directions_to_points` produces, described
/// point by point: twice the absolute point, shifted so that the bounding
/// box becomes symmetric about the origin.
pub open spec fn centered_points(dirs: Seq<Vec2i>, ps: Seq<Vec2i>) -> bool {
    &&& ps.len() == dirs.len()
    &&& forall|i: int|
        0 <= i < ps.len() ==> (#[trigger] ps[i]).x == 2 * abs_x(dirs, i) - (seq_min(abs_xs(dirs))
            + seq_max(abs_xs(dirs)))
    &&& forall|i: int|
        0 <= i < ps.len() ==> (#[trigger] ps[i]).y == 2 * abs_y(dirs, i) - (seq_min(abs_ys(dirs))
            + seq_max(abs_ys(dirs)))
}

proof fn lemma_seq_min_push(s: Seq<int>, v: int)
    requires
        s.len() > 0,
    ensures
        seq_min(s.push(v)) == min2(seq_min(s), v),
        seq_max(s.push(v)) == max2(seq_max(s), v),
    decreases s.len(),
{
    if s.len() == 1 {
        assert(s.push(v).drop_first() =~= seq![v]);
        assert(seq_min(seq![v]) == v);
        assert(seq_max(seq![v]) == v);
        assert(s.push(v)[0] == s[0]);
        assert(seq_min(s.push(v)) == min2(s[0], seq_min(seq![v])));
        assert(seq_max(s.push(v)) == max2(s[0], seq_max(seq![v])));
    } else {
        assert(s.push(v).drop_first() =~= s.drop_first().push(v));
        lemma_seq_min_push(s.drop_first(), v);
        assert(s.push(v)[0] == s[0]);
        assert(seq_min(s.push(v)) == min2(s[0], seq_min(s.drop_first().push(v))));
        assert(seq_max(s.push(v)) == max2(s[0], seq_max(s.drop_first().push(v))));
    }
}

/// Least and greatest element of an affine image of a sequence: mapping
/// every element through `2 * v - c` maps the extrema the same way.
proof fn lemma_affine_extrema(s: Seq<int>, t: Seq<int>, c: int)
    requires
        s.len() == t.len(),
        s.len() > 0,
        forall|i: int| 0 <= i < s.len() ==> #[trigger] t[i] == 2 * s[i] - c,
    ensures
        seq_min(t) == 2 * seq_min(s) - c,
        seq_max(t) == 2 * seq_max(s) - c,
    decreases s.len(),
{
    if s.len() > 1 {
        assert(forall|i: int|
            0 <= i < s.drop_first().len() ==> #[trigger] t.drop_first()[i] == 2 * s.drop_first()[i]
                - c);
        lemma_affine_extrema(s.drop_first(), t.drop_first(), c);
    }
}

/// Turns a list of relative displacements into the centred point cloud of a
/// hole: the `i`-th absolute point is the prefix sum of the displacements
/// through index `i`, and the cloud is shifted so that its bounding box is
/// symmetric about the origin.  The result is in half-units (twice the
/// input scale), which keeps the shift exact.
pub fn directions_to_points(directions: &Vec<Vec2i>) -> (points: Vec<Vec2i>)
    requires
        1 <= directions@.len() <= MAX_VERTS,
        steps_bounded(directions@),
    ensures
        centered_points(directions@, points@),
        centered(points@),
        forall|i: int| 0 <= i < points@.len() ==> in_box(#[trigger] points@[i], MAX_COORD),
{
    let ghost dirs = directions@;
    let n = directions.len();

    // Absolute points by prefix sum.
    let mut ax: Vec<i64> = Vec::new();
    let mut ay: Vec<i64> = Vec::new();
    let mut sx: i64 = 0;
    let mut sy: i64 = 0;
    let mut i: usize = 0;
    while i < n
        invariant
            directions@ == dirs,
            n == dirs.len() <= MAX_VERTS,
            steps_bounded(dirs),
            i <= n,
            sx == psum_x(dirs, i as int),
            sy == psum_y(dirs, i as int),
            -(i as int) * (MAX_STEP as int) <= sx <= (i as int) * (MAX_STEP as int),
            -(i as int) * (MAX_STEP as int) <= sy <= (i as int) * (MAX_STEP as int),
            ax@.len() == i,
            ay@.len() == i,
            forall|j: int| 0 <= j < i ==> #[trigger] ax@[j] == abs_x(dirs, j),
            forall|j: int| 0 <= j < i ==> #[trigger] ay@[j] == abs_y(dirs, j),
            forall|j: int|
                0 <= j < i ==> -(MAX_ABS as int) <= #[trigger] ax@[j] <= (MAX_VERTS
                    * MAX_STEP) as int,
            forall|j: int|
                0 <= j < i ==> -(MAX_ABS as int) <= #[trigger] ay@[j] <= (MAX_VERTS
                    * MAX_STEP) as int,
        decreases n - i,
    {
        assert(in_box(dirs[i as int], MAX_STEP));
        sx = sx + directions[i].x;
        sy = sy + directions[i].y;
        ax.push(sx);
        ay.push(sy);
        i = i + 1;
    }

    // Bounding box of the absolute cloud.
    let mut lox: i64 = ax[0];
    let mut hix: i64 = ax[0];
    let mut loy: i64 = ay[0];
    let mut hiy: i64 = ay[0];
    let mut i: usize = 1;
    proof {
        assert(abs_xs(dirs).take(1) =~= seq![abs_x(dirs, 0)]);
        assert(abs_ys(dirs).take(1) =~= seq![abs_y(dirs, 0)]);
    }
    while i < n
        invariant
            n == dirs.len() <= MAX_VERTS,
            1 <= i <= n,
            ax@.len() == n,
            ay@.len() == n,
            forall|j: int| 0 <= j < n ==> #[trigger] ax@[j] == abs_x(dirs, j),
            forall|j: int| 0 <= j < n ==> #[trigger] ay@[j] == abs_y(dirs, j),
            forall|j: int|
                0 <= j < n ==> -(MAX_ABS as int) <= #[trigger] ax@[j] <= (MAX_VERTS
                    * MAX_STEP) as int,
            forall|j: int|
                0 <= j < n ==> -(MAX_ABS as int) <= #[trigger] ay@[j] <= (MAX_VERTS
                    * MAX_STEP) as int,
            lox == seq_min(abs_xs(dirs).take(i as int)),
            hix == seq_max(abs_xs(dirs).take(i as int)),
            loy == seq_min(abs_ys(dirs).take(i as int)),
            hiy == seq_max(abs_ys(dirs).take(i as int)),
            -(MAX_ABS as int) <= lox <= MAX_ABS as int,
            -(MAX_ABS as int) <= hix <= MAX_ABS as int,
            -(MAX_ABS as int) <= loy <= MAX_ABS as int,
            -(MAX_ABS as int) <= hiy <= MAX_ABS as int,
        decreases n - i,
    {
        proof {
            lemma_seq_min_push(abs_xs(dirs).take(i as int), abs_x(dirs, i as int));
            lemma_seq_min_push(abs_ys(dirs).take(i as int), abs_y(dirs, i as int));
            assert(abs_xs(dirs).take(i as int).push(abs_x(dirs, i as int)) =~= abs_xs(dirs).take(
                i as int + 1,
            ));
            assert(abs_ys(dirs).take(i as int).push(abs_y(dirs, i as int)) =~= abs_ys(dirs).take(
                i as int + 1,
            ));
        }
        if ax[i] < lox {
            lox = ax[i];
        }
        if ax[i] > hix {
            hix = ax[i];
        }
        if ay[i] < loy {
            loy = ay[i];
        }
        if ay[i] > hiy {
            hiy = ay[i];
        }
        i = i + 1;
    }
    proof {
        assert(abs_xs(dirs).take(n as int) =~= abs_xs(dirs));
        assert(abs_ys(dirs).take(n as int) =~= abs_ys(dirs));
    }

    // Centre: twice each point, shifted by the box centre doubled.
    let cx: i64 = lox + hix;
    let cy: i64 = loy + hiy;
    let mut points: Vec<Vec2i> = Vec::new();
    let mut i: usize = 0;
    while i < n
        invariant
            n == dirs.len() <= MAX_VERTS,
            i <= n,
            ax@.len() == n,
            ay@.len() == n,
            forall|j: int| 0 <= j < n ==> #[trigger] ax@[j] == abs_x(dirs, j),
            forall|j: int| 0 <= j < n ==> #[trigger] ay@[j] == abs_y(dirs, j),
            forall|j: int|
                0 <= j < n ==> -(MAX_ABS as int) <= #[trigger] ax@[j] <= (MAX_VERTS
                    * MAX_STEP) as int,
            forall|j: int|
                0 <= j < n ==> -(MAX_ABS as int) <= #[trigger] ay@[j] <= (MAX_VERTS
                    * MAX_STEP) as int,
            cx == seq_min(abs_xs(dirs)) + seq_max(abs_xs(dirs)),
            cy == seq_min(abs_ys(dirs)) + seq_max(abs_ys(dirs)),
            -2 * (MAX_ABS as int) <= cx <= 2 * (MAX_ABS as int),
            -2 * (MAX_ABS as int) <= cy <= 2 * (MAX_ABS as int),
            points@.len() == i,
            forall|j: int|
                0 <= j < i ==> (#[trigger] points@[j]).x == 2 * abs_x(dirs, j) - cx,
            forall|j: int|
                0 <= j < i ==> (#[trigger] points@[j]).y == 2 * abs_y(dirs, j) - cy,
            forall|j: int| 0 <= j < i ==> in_box(#[trigger] points@[j], MAX_COORD),
        decreases n - i,
    {
        let px: i64 = 2 * ax[i] - cx;
        let py: i64 = 2 * ay[i] - cy;
        points.push(Vec2i { x: px, y: py });
        i = i + 1;
    }

    proof {
        assert(forall|j: int| 0 <= j < n ==> #[trigger] abs_xs(dirs)[j] == abs_x(dirs, j));
        assert(forall|j: int| 0 <= j < n ==> #[trigger] abs_ys(dirs)[j] == abs_y(dirs, j));
        assert(forall|j: int|
            0 <= j < n ==> #[trigger] xs(points@)[j] == 2 * abs_xs(dirs)[j] - cx);
        assert(forall|j: int|
            0 <= j < n ==> #[trigger] ys(points@)[j] == 2 * abs_ys(dirs)[j] - cy);
        lemma_affine_extrema(abs_xs(dirs), xs(points@), cx as int);
        lemma_affine_extrema(abs_ys(dirs), ys(points@), cy as int);
    }
    points
}

} // verus!
