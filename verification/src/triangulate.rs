//! Ear-clipping triangulation of a simple polygon on the integer plane.
//!
//! The render mesh of a hole is a triangle index list over the hole's
//! centred point cloud.  Ear clipping removes one convex, empty ear at a
//! time, so a successful run over an `n`-gon always emits exactly
//! `3 * (n - 2)` indices.  A polygon on which no ear can be found (zero
//! area, self-intersecting, or otherwise degenerate) yields `None`; that is
//! a content error in the hole data, decided at course-load time.

use vstd::prelude::*;

use crate::geom::Vec2i;
use crate::geom::in_box;
use crate::geom::MAX_COORD;
use crate::geom::MAX_VERTS;

verus! {

/// Twice the signed area of the triangle `(a, b, c)`: positive when the
/// three points wind counter-clockwise, zero when they are collinear.
pub open spec fn cross3(a: Vec2i, b: Vec2i, c: Vec2i) -> int {
    (b.x - a.x) * (c.y - a.y) - (b.y - a.y) * (c.x - a.x)
}

/// Twice the signed area of the fan triangles of `ps` through vertex 0,
/// summed over the first `k` fan corners.
pub open spec fn area2_to(ps: Seq<Vec2i>, k: int) -> int
    decreases k,
{
    if k <= 1 {
        0
    } else {
        area2_to(ps, k - 1) + cross3(ps[0], ps[k - 1], ps[k])
    }
}

/// Twice the signed area of the polygon `ps`: positive when its boundary
/// winds counter-clockwise.
pub open spec fn polygon_area2(ps: Seq<Vec2i>) -> int {
    area2_to(ps, ps.len() - 1)
}

/// Three entries at a time, the corners of every triangle of the list
/// are pairwise distinct.
pub open spec fn triples_distinct(tris: Seq<usize>) -> bool
    decreases tris.len(),
{
    if tris.len() < 3 {
        true
    } else {
        &&& tris[0] != tris[1]
        &&& tris[0] != tris[2]
        &&& tris[1] != tris[2]
        &&& triples_distinct(tris.skip(3))
    }
}

/// Three entries at a time, every triangle of the list has nonzero area
/// over the point cloud `ps`: no emitted triangle is collapsed to a line
/// or a point.
pub open spec fn triples_nondegenerate(ps: Seq<Vec2i>, tris: Seq<usize>) -> bool
    decreases tris.len(),
{
    if tris.len() < 3 {
        true
    } else {
        &&& cross3(ps[tris[0] as int], ps[tris[1] as int], ps[tris[2] as int]) != 0
        &&& triples_nondegenerate(ps, tris.skip(3))
    }
}

/// A well-shaped triangle list over the polygon `ps`: exactly
/// `3 * (n - 2)` indices for an `n`-gon, each in range, and every
/// triangle's corners pairwise distinct and not collinear.  (That the
/// triangles partition the polygon's interior is not claimed.)
pub open spec fn triangulation_shape(ps: Seq<Vec2i>, tris: Seq<usize>) -> bool {
    &&& tris.len() == 3 * (ps.len() - 2)
    &&& forall|k: int| 0 <= k < tris.len() ==> (#[trigger] tris[k]) < ps.len()
    &&& triples_distinct(tris)
    &&& triples_nondegenerate(ps, tris)
}

proof fn lemma_triples_distinct_push(t: Seq<usize>, a: usize, b: usize, c: usize)
    requires
        t.len() % 3 == 0,
        triples_distinct(t),
        a != b,
        a != c,
        b != c,
    ensures
        triples_distinct(t + seq![a, b, c]),
    decreases t.len(),
{
    if t.len() == 0 {
        assert(t + seq![a, b, c] =~= seq![a, b, c]);
        assert((t + seq![a, b, c]).skip(3) =~= Seq::<usize>::empty());
        assert(triples_distinct(Seq::<usize>::empty()));
        assert((t + seq![a, b, c])[0] == a);
        assert((t + seq![a, b, c])[1] == b);
        assert((t + seq![a, b, c])[2] == c);
    } else {
        assert(t.len() >= 3);
        assert((t + seq![a, b, c]).skip(3) =~= t.skip(3) + seq![a, b, c]);
        assert(t.skip(3).len() % 3 == 0);
        lemma_triples_distinct_push(t.skip(3), a, b, c);
        assert(triples_distinct((t + seq![a, b, c]).skip(3)));
        assert((t + seq![a, b, c])[0] == t[0]);
        assert((t + seq![a, b, c])[1] == t[1]);
        assert((t + seq![a, b, c])[2] == t[2]);
    }
}

proof fn lemma_triples_nondegenerate_push(
    ps: Seq<Vec2i>,
    t: Seq<usize>,
    a: usize,
    b: usize,
    c: usize,
)
    requires
        t.len() % 3 == 0,
        triples_nondegenerate(ps, t),
        cross3(ps[a as int], ps[b as int], ps[c as int]) != 0,
    ensures
        triples_nondegenerate(ps, t + seq![a, b, c]),
    decreases t.len(),
{
    if t.len() == 0 {
        assert(t + seq![a, b, c] =~= seq![a, b, c]);
        assert((t + seq![a, b, c]).skip(3) =~= Seq::<usize>::empty());
        assert(triples_nondegenerate(ps, Seq::<usize>::empty()));
        assert((t + seq![a, b, c])[0] == a);
        assert((t + seq![a, b, c])[1] == b);
        assert((t + seq![a, b, c])[2] == c);
    } else {
        assert(t.len() >= 3);
        assert((t + seq![a, b, c]).skip(3) =~= t.skip(3) + seq![a, b, c]);
        assert(t.skip(3).len() % 3 == 0);
        lemma_triples_nondegenerate_push(ps, t.skip(3), a, b, c);
        assert(triples_nondegenerate(ps, (t + seq![a, b, c]).skip(3)));
        assert((t + seq![a, b, c])[0] == t[0]);
        assert((t + seq![a, b, c])[1] == t[1]);
        assert((t + seq![a, b, c])[2] == t[2]);
    }
}

/// The elements of `s` grow strictly from left to right.
pub open spec fn strictly_increasing(s: Seq<usize>) -> bool {
    forall|i: int, j: int| 0 <= i < j < s.len() ==> s[i] < s[j]
}

/// Every point of `ps` lies within the coordinate bound of a centred cloud.
pub open spec fn points_bounded(ps: Seq<Vec2i>) -> bool {
    forall|i: int| 0 <= i < ps.len() ==> in_box(#[trigger] ps[i], MAX_COORD)
}

/// Twice the signed area of `(a, b, c)`, computed exactly.
fn cross_of(a: Vec2i, b: Vec2i, c: Vec2i) -> (r: i128)
    requires
        in_box(a, MAX_COORD),
        in_box(b, MAX_COORD),
        in_box(c, MAX_COORD),
    ensures
        r == cross3(a, b, c),
        -128_000_000_000_000_000_000 <= r <= 128_000_000_000_000_000_000,
{
    let bax: i128 = b.x as i128 - a.x as i128;
    let bay: i128 = b.y as i128 - a.y as i128;
    let cax: i128 = c.x as i128 - a.x as i128;
    let cay: i128 = c.y as i128 - a.y as i128;
    assert(-64_000_000_000_000_000_000 <= bax * cay <= 64_000_000_000_000_000_000)
        by (nonlinear_arith)
        requires
            -8_000_000_000 <= bax <= 8_000_000_000,
            -8_000_000_000 <= cay <= 8_000_000_000,
    ;
    assert(-64_000_000_000_000_000_000 <= bay * cax <= 64_000_000_000_000_000_000)
        by (nonlinear_arith)
        requires
            -8_000_000_000 <= bay <= 8_000_000_000,
            -8_000_000_000 <= cax <= 8_000_000_000,
    ;
    bax * cay - bay * cax
}

/// Twice the signed area of the whole polygon, computed exactly.
fn polygon_area2_of(points: &Vec<Vec2i>) -> (r: i128)
    requires
        3 <= points@.len() <= MAX_VERTS,
        points_bounded(points@),
    ensures
        r == polygon_area2(points@),
{
    let n = points.len();
    let mut acc: i128 = 0;
    let mut k: usize = 1;
    while k < n - 1
        invariant
            3 <= n == points@.len() <= MAX_VERTS,
            points_bounded(points@),
            1 <= k <= n - 1,
            acc == area2_to(points@, k as int),
            -(k as int) * 128_000_000_000_000_000_000 <= acc <= (k as int)
                * 128_000_000_000_000_000_000,
        decreases n - k,
    {
        let c = cross_of(points[0], points[k], points[k + 1]);
        acc = acc + c;
        k = k + 1;
    }
    acc
}

/// Whether `q` lies inside or on the boundary of the triangle `(a, b, c)`,
/// whose corners wind counter-clockwise when `ccw` and clockwise otherwise.
fn in_triangle_closed(q: Vec2i, a: Vec2i, b: Vec2i, c: Vec2i, ccw: bool) -> bool
    requires
        in_box(q, MAX_COORD),
        in_box(a, MAX_COORD),
        in_box(b, MAX_COORD),
        in_box(c, MAX_COORD),
{
    let s1 = cross_of(a, b, q);
    let s2 = cross_of(b, c, q);
    let s3 = cross_of(c, a, q);
    if ccw {
        s1 >= 0 && s2 >= 0 && s3 >= 0
    } else {
        s1 <= 0 && s2 <= 0 && s3 <= 0
    }
}

/// Whether the active vertex at position `i` is an ear: its corner is
/// strictly convex with respect to the polygon's winding, and no other
/// active vertex lies inside or on the corner triangle.
fn is_ear(points: &Vec<Vec2i>, active: &Vec<usize>, i: usize, ccw: bool) -> bool
    requires
        points_bounded(points@),
        3 <= active@.len(),
        i < active@.len(),
        forall|k: int| 0 <= k < active@.len() ==> (#[trigger] active@[k]) < points@.len(),
    {
    let m = active.len();
    let ip = if i == 0 {
        m - 1
    } else {
        i - 1
    };
    let inx = if i == m - 1 {
        0
    } else {
        i + 1
    };
    let a = points[active[ip]];
    let b = points[active[i]];
    let c = points[active[inx]];
    let corner = cross_of(a, b, c);
    let convex = if ccw {
        corner > 0
    } else {
        corner < 0
    };
    if !convex {
        return false;
    }
    let mut j: usize = 0;
    while j < m
        invariant
            m == active@.len(),
            points_bounded(points@),
            forall|k: int| 0 <= k < active@.len() ==> (#[trigger] active@[k]) < points@.len(),
            ip < m,
            i < m,
            inx < m,
            in_box(a, MAX_COORD),
            in_box(b, MAX_COORD),
            in_box(c, MAX_COORD),
            j <= m,
        decreases m - j,
    {
        if j != ip && j != i && j != inx {
            if in_triangle_closed(points[active[j]], a, b, c, ccw) {
                return false;
            }
        }
        j = j + 1;
    }
    true
}

/// Position of the first ear among the active vertices, if any.
fn find_ear(points: &Vec<Vec2i>, active: &Vec<usize>, ccw: bool) -> (r: Option<usize>)
    requires
        points_bounded(points@),
        3 <= active@.len(),
        forall|k: int| 0 <= k < active@.len() ==> (#[trigger] active@[k]) < points@.len(),
    ensures
        r matches Some(i) ==> i < active@.len(),
{
    let m = active.len();
    let mut j: usize = 0;
    while j < m
        invariant
            m == active@.len(),
            points_bounded(points@),
            3 <= active@.len(),
            forall|k: int| 0 <= k < active@.len() ==> (#[trigger] active@[k]) < points@.len(),
            j <= m,
        decreases m - j,
    {
        if is_ear(points, active, j, ccw) {
            return Some(j);
        }
        j = j + 1;
    }
    None
}

/// Triangulates the polygon `points` by ear clipping.
///
/// On success the result is a triangle index list with exactly
/// `3 * (n - 2)` entries for an `n`-gon, every index in range and every
/// triangle's corners pairwise distinct and not collinear.  `None` means
/// no ear could be clipped — in practice a degenerate polygon (zero area
/// or self-intersecting) — which callers treat as a fatal content error
/// in the hole data.  The contract does not promise success on simple
/// polygons (that is the two-ears theorem); the shipped course's meshes
/// are instead proved well-shaped outright in `level_data`.
#[verifier::rlimit(60)]
pub fn triangulate(points: &Vec<Vec2i>) -> (r: Option<Vec<usize>>)
    requires
        3 <= points@.len() <= MAX_VERTS,
        points_bounded(points@),
    ensures
        r matches Some(tris) ==> triangulation_shape(points@, tris@),
{
    let n = points.len();
    let area2 = polygon_area2_of(points);
    if area2 == 0 {
        return None;
    }
    let ccw = area2 > 0;

    let mut active: Vec<usize> = Vec::new();
    let mut i: usize = 0;
    while i < n
        invariant
            i <= n,
            active@.len() == i,
            forall|k: int| 0 <= k < i ==> (#[trigger] active@[k]) == k,
        decreases n - i,
    {
        active.push(i);
        i = i + 1;
    }
    assert(strictly_increasing(active@));

    let mut tris: Vec<usize> = Vec::new();
    while active.len() > 3
        invariant
            3 <= n == points@.len() <= MAX_VERTS,
            points_bounded(points@),
            3 <= active@.len() <= n,
            strictly_increasing(active@),
            forall|k: int| 0 <= k < active@.len() ==> (#[trigger] active@[k]) < n,
            tris@.len() == 3 * (n - active@.len()),
            forall|k: int| 0 <= k < tris@.len() ==> (#[trigger] tris@[k]) < n,
            triples_distinct(tris@),
            triples_nondegenerate(points@, tris@),
        decreases active@.len(),
    {
        let ear = match find_ear(points, &active, ccw) {
            Some(e) => e,
            None => {
                return None;
            },
        };
        let m = active.len();
        let ip = if ear == 0 {
            m - 1
        } else {
            ear - 1
        };
        let inx = if ear == m - 1 {
            0
        } else {
            ear + 1
        };
        let a = active[ip];
        let b = active[ear];
        let c = active[inx];
        proof {
            assert(a != b && a != c && b != c);
        }
        // An ear's corner is strictly convex, so its triangle can never be
        // collapsed; a zero cross product here means the content is broken.
        let cr = cross_of(points[a], points[b], points[c]);
        if cr == 0 {
            return None;
        }
        let ghost old_tris = tris@;
        tris.push(a);
        tris.push(b);
        tris.push(c);
        active.remove(ear);
        proof {
            assert(tris@ =~= old_tris + seq![a, b, c]);
            lemma_triples_distinct_push(old_tris, a, b, c);
            lemma_triples_nondegenerate_push(points@, old_tris, a, b, c);
        }
    }
    let a = active[0];
    let b = active[1];
    let c = active[2];
    proof {
        assert(a < b && b < c);
    }
    let cr = cross_of(points[a], points[b], points[c]);
    if cr == 0 {
        return None;
    }
    let ghost old_tris = tris@;
    tris.push(a);
    tris.push(b);
    tris.push(c);
    proof {
        assert(tris@ =~= old_tris + seq![a, b, c]);
        lemma_triples_distinct_push(old_tris, a, b, c);
        lemma_triples_nondegenerate_push(points@, old_tris, a, b, c);
    }
    Some(tris)
}

} // verus!
