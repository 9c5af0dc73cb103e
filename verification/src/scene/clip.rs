//! Clipping polygons to a rectangle.
//!
//! One edge of the rectangle is taken at a time.  For each it is decided which
//! corners of the polygon stay and between which ones the outline crosses the
//! edge; where exactly it does is computed outside.

use crate::scalar::Real32;
use vstd::prelude::*;

verus! {

/// A rectangle by its sides.
#[derive(Clone, Copy, Debug, PartialEq)]
pub struct ClipRect {
    pub x0: Real32,
    pub y0: Real32,
    pub x1: Real32,
    pub y1: Real32,
}

/// The larger of two numbers; where one is not a number, the other one.
pub open spec fn larger(a: Real32, b: Real32) -> Real32 {
    if a.is_nan() {
        b
    } else if b.is_nan() || b.rank() <= a.rank() {
        a
    } else {
        b
    }
}

/// The smaller of two numbers; where one is not a number, the other one.
pub open spec fn smaller(a: Real32, b: Real32) -> Real32 {
    if a.is_nan() {
        b
    } else if b.is_nan() || a.rank() <= b.rank() {
        a
    } else {
        b
    }
}

fn max_of(a: Real32, b: Real32) -> (result: Real32)
    ensures
        result == larger(a, b),
{
    if a.not_a_number() {
        b
    } else if b.not_a_number() || b.at_most(a) {
        a
    } else {
        b
    }
}

fn min_of(a: Real32, b: Real32) -> (result: Real32)
    ensures
        result == smaller(a, b),
{
    if a.not_a_number() {
        b
    } else if b.not_a_number() || a.at_most(b) {
        a
    } else {
        b
    }
}

/// One side of a rectangle.
#[derive(Clone, Copy, Debug, PartialEq)]
pub enum ClipEdge {
    Left(Real32),
    Right(Real32),
    Top(Real32),
    Bottom(Real32),
}

/// Whether a point is on the inner side of an edge.
pub open spec fn is_inside(point: [Real32; 2], edge: ClipEdge) -> bool {
    match edge {
        ClipEdge::Left(x) => x.not_above(point@[0]),
        ClipEdge::Right(x) => point@[0].not_above(x),
        ClipEdge::Top(y) => y.not_above(point@[1]),
        ClipEdge::Bottom(y) => point@[1].not_above(y),
    }
}

/// Whether a point is on the inner side of an edge.
pub fn inside(point: [Real32; 2], edge: ClipEdge) -> (result: bool)
    ensures
        result == is_inside(point, edge),
{
    match edge {
        ClipEdge::Left(x) => x.at_most(point[0]),
        ClipEdge::Right(x) => point[0].at_most(x),
        ClipEdge::Top(y) => y.at_most(point[1]),
        ClipEdge::Bottom(y) => point[1].at_most(y),
    }
}

impl ClipRect {
    /// What two rectangles have in common.
    pub open spec fn common(self, other: ClipRect) -> ClipRect {
        ClipRect {
            x0: larger(self.x0, other.x0),
            y0: larger(self.y0, other.y0),
            x1: smaller(self.x1, other.x1),
            y1: smaller(self.y1, other.y1),
        }
    }

    /// What two rectangles have in common.
    pub fn intersect(self, other: ClipRect) -> (result: ClipRect)
        ensures
            result == self.common(other),
    {
        ClipRect {
            x0: max_of(self.x0, other.x0),
            y0: max_of(self.y0, other.y0),
            x1: min_of(self.x1, other.x1),
            y1: min_of(self.y1, other.y1),
        }
    }

    /// Whether a point lies in the rectangle or on its sides.
    pub open spec fn holds(self, point: [Real32; 2]) -> bool {
        &&& self.x0.not_above(point@[0]) && point@[0].not_above(self.x1)
        &&& self.y0.not_above(point@[1]) && point@[1].not_above(self.y1)
    }

    /// Whether what lies inside all of the edges is what lies in the rectangle.
    pub open spec fn is_bounded_by(self, edges: Seq<ClipEdge>) -> bool {
        &&& edges.len() == 4
        &&& forall|point: [Real32; 2]| #[trigger]
            self.holds(point) <==> is_inside(point, edges[0]) && is_inside(point, edges[1])
                && is_inside(point, edges[2]) && is_inside(point, edges[3])
    }

    /// Whether there is nothing inside.
    pub open spec fn is_void(self) -> bool {
        self.x1.not_above(self.x0) || self.y1.not_above(self.y0)
    }

    /// The four sides, in the order in which they are clipped at; none where
    /// there is nothing inside, so that nothing is left of any polygon.
    pub fn edges(self) -> (result: Option<[ClipEdge; 4]>)
        ensures
            result is None <==> self.is_void(),
            result matches Some(edges) ==> edges@ == seq![
                ClipEdge::Left(self.x0),
                ClipEdge::Right(self.x1),
                ClipEdge::Top(self.y0),
                ClipEdge::Bottom(self.y1),
            ],
            result matches Some(edges) ==> self.is_bounded_by(edges@),
    {
        if self.x1.at_most(self.x0) || self.y1.at_most(self.y0) {
            return None;
        }
        let edges = [
            ClipEdge::Left(self.x0),
            ClipEdge::Right(self.x1),
            ClipEdge::Top(self.y0),
            ClipEdge::Bottom(self.y1),
        ];
        assert(edges@ =~= seq![
            ClipEdge::Left(self.x0),
            ClipEdge::Right(self.x1),
            ClipEdge::Top(self.y0),
            ClipEdge::Bottom(self.y1),
        ]);
        Some(edges)
    }
}

/// Where a corner of the clipped polygon comes from.
#[derive(Clone, Copy, Debug, PartialEq, Eq, Structural)]
pub enum ClipStep {
    /// It is this corner of the polygon.
    Keep(usize),
    /// It is where the outline crosses the edge between these two corners.
    Cross(usize, usize),
}

/// The corner before the one at `i`, going round.
pub open spec fn corner_before(count: int, i: int) -> int {
    if i == 0 {
        count - 1
    } else {
        i - 1
    }
}

/// What comes of the corner at `i`.
pub open spec fn corner_steps(points: Seq<[Real32; 2]>, edge: ClipEdge, i: int) -> Seq<ClipStep> {
    let before = corner_before(points.len() as int, i);
    let crossed = if is_inside(points[i], edge) != is_inside(points[before], edge) {
        seq![ClipStep::Cross(before as usize, i as usize)]
    } else {
        Seq::empty()
    };
    if is_inside(points[i], edge) {
        crossed.push(ClipStep::Keep(i as usize))
    } else {
        crossed
    }
}

/// What comes of the first `count` corners.
pub open spec fn clip_steps(points: Seq<[Real32; 2]>, edge: ClipEdge, count: nat) -> Seq<ClipStep>
    decreases count,
{
    if count == 0 {
        Seq::empty()
    } else {
        clip_steps(points, edge, (count - 1) as nat) + corner_steps(points, edge, count - 1)
    }
}

/// Clip a polygon at an edge.
pub fn clip_edge(points: &Vec<[Real32; 2]>, edge: ClipEdge) -> (result: Vec<ClipStep>)
    ensures
        result@ == clip_steps(points@, edge, points@.len()),
{
    let mut result: Vec<ClipStep> = Vec::new();
    if points.len() == 0 {
        return result;
    }
    let mut previous: usize = points.len() - 1;
    let mut previous_inside = inside(points[previous], edge);
    let mut i: usize = 0;
    while i < points.len()
        invariant
            i <= points.len(),
            0 < points.len(),
            i < points.len() ==> previous == corner_before(points@.len() as int, i as int),
            previous < points.len(),
            previous_inside == is_inside(points@[previous as int], edge),
            result@ == clip_steps(points@, edge, i as nat),
        decreases points.len() - i,
    {
        let ghost before = result@;
        let current_inside = inside(points[i], edge);
        if current_inside != previous_inside {
            result.push(ClipStep::Cross(previous, i));
        }
        if current_inside {
            result.push(ClipStep::Keep(i));
        }
        assert(result@ =~= before + corner_steps(points@, edge, i as int));
        previous = i;
        previous_inside = current_inside;
        i += 1;
    }
    result
}

/// A polygon that is wholly inside is kept as it is.
pub proof fn inner_polygons_are_kept(points: Seq<[Real32; 2]>, edge: ClipEdge, count: nat)
    requires
        count <= points.len(),
        forall|i: int| 0 <= i < points.len() ==> is_inside(#[trigger] points[i], edge),
    ensures
        clip_steps(points, edge, count) == Seq::new(count, |i: int| ClipStep::Keep(i as usize)),
    decreases count,
{
    if count > 0 {
        inner_polygons_are_kept(points, edge, (count - 1) as nat);
    }
    assert(clip_steps(points, edge, count) =~= Seq::new(
        count,
        |i: int| ClipStep::Keep(i as usize),
    ));
}

/// Of a polygon that is wholly outside nothing is left.
pub proof fn outer_polygons_vanish(points: Seq<[Real32; 2]>, edge: ClipEdge, count: nat)
    requires
        count <= points.len(),
        forall|i: int| 0 <= i < points.len() ==> !is_inside(#[trigger] points[i], edge),
    ensures
        clip_steps(points, edge, count) == Seq::<ClipStep>::empty(),
    decreases count,
{
    if count > 0 {
        outer_polygons_vanish(points, edge, (count - 1) as nat);
    }
    assert(clip_steps(points, edge, count) =~= Seq::empty());
}

/// How often the outline crosses the edge.
pub open spec fn crossings(steps: Seq<ClipStep>) -> nat
    decreases steps.len(),
{
    if steps.len() == 0 {
        0
    } else {
        crossings(steps.drop_last()) + if steps.last() is Cross {
            1nat
        } else {
            0nat
        }
    }
}

proof fn crossings_of_joined(a: Seq<ClipStep>, b: Seq<ClipStep>)
    ensures
        crossings(a + b) == crossings(a) + crossings(b),
    decreases b.len(),
{
    if b.len() == 0 {
        assert(a + b =~= a);
    } else {
        assert((a + b).drop_last() =~= a + b.drop_last());
        crossings_of_joined(a, b.drop_last());
    }
}

proof fn crossings_so_far(points: Seq<[Real32; 2]>, edge: ClipEdge, count: nat)
    requires
        0 < count <= points.len(),
    ensures
        (crossings(clip_steps(points, edge, count)) % 2 == 1) <==> (is_inside(
            points[count - 1],
            edge,
        ) != is_inside(points.last(), edge)),
    decreases count,
{
    let before = clip_steps(points, edge, (count - 1) as nat);
    let steps = corner_steps(points, edge, count - 1);
    crossings_of_joined(before, steps);
    let previous = corner_before(points.len() as int, count - 1);
    let crossed = is_inside(points[count - 1], edge) != is_inside(points[previous], edge);
    assert(crossings(steps) == if crossed {
        1nat
    } else {
        0nat
    }) by {
        reveal_with_fuel(crossings, 3);
        let kept = steps.drop_last();
        assert(steps.len() == 2 ==> kept =~= seq![
            ClipStep::Cross(previous as usize, (count - 1) as usize),
        ]);
        assert(steps.len() == 2 ==> kept.drop_last() =~= Seq::empty());
    }
    if count > 1 {
        crossings_so_far(points, edge, (count - 1) as nat);
    }
}

/// The outline of a polygon crosses an edge as often inwards as outwards.
pub proof fn outlines_cross_evenly(points: Seq<[Real32; 2]>, edge: ClipEdge)
    ensures
        crossings(clip_steps(points, edge, points.len())) % 2 == 0,
{
    if points.len() > 0 {
        crossings_so_far(points, edge, points.len());
    }
}

/// Where a corner of the clipped polygon stands on the way round: what comes of
/// an earlier corner comes earlier, and a crossing comes before the corner that
/// it leads to.
pub open spec fn step_order(step: ClipStep) -> int {
    match step {
        ClipStep::Keep(at) => 2 * at + 1,
        ClipStep::Cross(_, to) => 2 * to,
    }
}

/// Whether a step belongs to a polygon clipped at an edge: a corner that is kept
/// is inside, and a crossing is on a side of the polygon, from a corner to the
/// next one going round, of which exactly one is inside.
pub open spec fn is_right_step(points: Seq<[Real32; 2]>, edge: ClipEdge, step: ClipStep) -> bool {
    match step {
        ClipStep::Keep(at) => at < points.len() && is_inside(points[at as int], edge),
        ClipStep::Cross(from, to) => {
            &&& from < points.len() && to < points.len()
            &&& to == from + 1 || (from == points.len() - 1 && to == 0)
            &&& is_inside(points[from as int], edge) != is_inside(points[to as int], edge)
        },
    }
}

proof fn steps_so_far_are_right(points: Seq<[Real32; 2]>, edge: ClipEdge, count: nat)
    requires
        count <= points.len() <= usize::MAX,
    ensures
        forall|k: int|
            0 <= k < clip_steps(points, edge, count).len() ==> is_right_step(
                points,
                edge,
                #[trigger] clip_steps(points, edge, count)[k],
            ) && 0 <= step_order(clip_steps(points, edge, count)[k]) < 2 * count,
        forall|j: int, k: int|
            0 <= j < k < clip_steps(points, edge, count).len() ==> step_order(
                #[trigger] clip_steps(points, edge, count)[j],
            ) < step_order(#[trigger] clip_steps(points, edge, count)[k]),
        forall|i: int|
            0 <= i < count && is_inside(#[trigger] points[i], edge) ==> clip_steps(
                points,
                edge,
                count,
            ).contains(ClipStep::Keep(i as usize)),
        forall|i: int, j: int|
            0 <= i < points.len() && 0 <= j < count && (j == i + 1 || (i == points.len() - 1 && j
                == 0)) && is_inside(#[trigger] points[i], edge) != is_inside(
                #[trigger] points[j],
                edge,
            ) ==> clip_steps(points, edge, count).contains(
                ClipStep::Cross(i as usize, j as usize),
            ),
    decreases count,
{
    if count > 0 {
        let at = count - 1;
        let before = clip_steps(points, edge, at as nat);
        let added = corner_steps(points, edge, at);
        let all = clip_steps(points, edge, count);
        steps_so_far_are_right(points, edge, at as nat);
        assert(all == before + added);
        assert forall|k: int| 0 <= k < all.len() implies is_right_step(
            points,
            edge,
            #[trigger] all[k],
        ) && 0 <= step_order(all[k]) < 2 * count by {
            if k < before.len() {
                assert(all[k] == before[k]);
            } else {
                assert(all[k] == added[k - before.len()]);
            }
        }
        assert forall|j: int, k: int| 0 <= j < k < all.len() implies step_order(#[trigger] all[j])
            < step_order(#[trigger] all[k]) by {
            if k < before.len() {
                assert(all[j] == before[j] && all[k] == before[k]);
            } else {
                assert(all[k] == added[k - before.len()]);
                if j < before.len() {
                    assert(all[j] == before[j]);
                    assert(step_order(all[k]) >= 2 * at);
                } else {
                    assert(all[j] == added[j - before.len()]);
                }
            }
        }
        assert forall|step: ClipStep| before.contains(step) implies #[trigger] all.contains(step) by {
            let k = choose|k: int| 0 <= k < before.len() && before[k] == step;
            assert(all[k] == step);
        }
        assert forall|step: ClipStep| added.contains(step) implies #[trigger] all.contains(step) by {
            let k = choose|k: int| 0 <= k < added.len() && added[k] == step;
            assert(all[before.len() + k] == step);
        }
        assert forall|i: int| 0 <= i < count && is_inside(#[trigger] points[i], edge) implies all.contains(
            ClipStep::Keep(i as usize),
        ) by {
            if i == at {
                assert(added[added.len() - 1] == ClipStep::Keep(i as usize));
                assert(added.contains(ClipStep::Keep(i as usize)));
            } else {
                assert(before.contains(ClipStep::Keep(i as usize)));
            }
        }
        assert forall|i: int, j: int|
            0 <= i < points.len() && 0 <= j < count && (j == i + 1 || (i == points.len() - 1 && j
                == 0)) && is_inside(#[trigger] points[i], edge) != is_inside(
                #[trigger] points[j],
                edge,
            ) implies all.contains(ClipStep::Cross(i as usize, j as usize)) by {
            if j == at {
                assert(added[0] == ClipStep::Cross(i as usize, j as usize));
                assert(added.contains(ClipStep::Cross(i as usize, j as usize)));
            } else {
                assert(before.contains(ClipStep::Cross(i as usize, j as usize)));
            }
        }
    }
}

/// What is left of a polygon clipped at an edge is its part inside.  Every
/// corner that is kept is inside, and every crossing is on a side of the polygon
/// that meets the edge: it goes from a corner to the next one going round, and
/// exactly one of the two is inside.  No corner inside and no such side is left
/// out, none is there twice, and they come in the order of the outline.
pub proof fn clipping_keeps_the_inside(points: Seq<[Real32; 2]>, edge: ClipEdge)
    requires
        points.len() <= usize::MAX,
    ensures
        ({
            let steps = clip_steps(points, edge, points.len());
            &&& forall|k: int|
                0 <= k < steps.len() ==> match #[trigger] steps[k] {
                    ClipStep::Keep(at) => at < points.len() && is_inside(points[at as int], edge),
                    ClipStep::Cross(from, to) => {
                        &&& from < points.len() && to < points.len()
                        &&& to == from + 1 || (from == points.len() - 1 && to == 0)
                        &&& is_inside(points[from as int], edge) != is_inside(
                            points[to as int],
                            edge,
                        )
                    },
                }
            &&& forall|j: int, k: int|
                0 <= j < k < steps.len() ==> step_order(#[trigger] steps[j]) < step_order(
                    #[trigger] steps[k],
                )
            &&& forall|i: int|
                0 <= i < points.len() && is_inside(#[trigger] points[i], edge) ==> steps.contains(
                    ClipStep::Keep(i as usize),
                )
            &&& forall|i: int, j: int|
                0 <= i < points.len() && 0 <= j < points.len() && (j == i + 1 || (i == points.len()
                    - 1 && j == 0)) && is_inside(#[trigger] points[i], edge) != is_inside(
                    #[trigger] points[j],
                    edge,
                ) ==> steps.contains(ClipStep::Cross(i as usize, j as usize))
        }),
{
    steps_so_far_are_right(points, edge, points.len());
}

/// A point is inside an edge exactly if it is a number and not beyond it: not
/// less than the left and the top edge, not more than the right and the bottom
/// edge.  On the edge itself it is inside.
pub proof fn edges_face_inwards(x: Real32, y: Real32, at: Real32)
    ensures
        is_inside([x, y], ClipEdge::Left(at)) <==> !x.is_nan() && !at.is_nan() && x.rank()
            >= at.rank(),
        is_inside([x, y], ClipEdge::Right(at)) <==> !x.is_nan() && !at.is_nan() && x.rank()
            <= at.rank(),
        is_inside([x, y], ClipEdge::Top(at)) <==> !y.is_nan() && !at.is_nan() && y.rank()
            >= at.rank(),
        is_inside([x, y], ClipEdge::Bottom(at)) <==> !y.is_nan() && !at.is_nan() && y.rank()
            <= at.rank(),
{
}

/// A point is in what two rectangles have in common exactly if it is in both of
/// them.
pub proof fn common_part_is_in_both(first: ClipRect, second: ClipRect, point: [Real32; 2])
    requires
        !first.x0.is_nan() && !first.y0.is_nan() && !first.x1.is_nan() && !first.y1.is_nan(),
        !second.x0.is_nan() && !second.y0.is_nan() && !second.x1.is_nan() && !second.y1.is_nan(),
    ensures
        ({
            let common = first.common(second);
            &&& is_inside(point, ClipEdge::Left(common.x0)) <==> is_inside(
                point,
                ClipEdge::Left(first.x0),
            ) && is_inside(point, ClipEdge::Left(second.x0))
            &&& is_inside(point, ClipEdge::Right(common.x1)) <==> is_inside(
                point,
                ClipEdge::Right(first.x1),
            ) && is_inside(point, ClipEdge::Right(second.x1))
            &&& is_inside(point, ClipEdge::Top(common.y0)) <==> is_inside(
                point,
                ClipEdge::Top(first.y0),
            ) && is_inside(point, ClipEdge::Top(second.y0))
            &&& is_inside(point, ClipEdge::Bottom(common.y1)) <==> is_inside(
                point,
                ClipEdge::Bottom(first.y1),
            ) && is_inside(point, ClipEdge::Bottom(second.y1))
        }),
{
}

/// Each side of what two rectangles have in common is a side of one of them; one
/// that is not a number does not narrow the other.
pub proof fn common_sides_are_theirs(first: ClipRect, second: ClipRect)
    ensures
        ({
            let common = first.common(second);
            &&& common.x0 == first.x0 || common.x0 == second.x0
            &&& common.y0 == first.y0 || common.y0 == second.y0
            &&& common.x1 == first.x1 || common.x1 == second.x1
            &&& common.y1 == first.y1 || common.y1 == second.y1
            &&& first.x0.is_nan() ==> common.x0 == second.x0
            &&& first.y0.is_nan() ==> common.y0 == second.y0
            &&& first.x1.is_nan() ==> common.x1 == second.x1
            &&& first.y1.is_nan() ==> common.y1 == second.y1
            &&& second.x0.is_nan() && !first.x0.is_nan() ==> common.x0 == first.x0
            &&& second.y0.is_nan() && !first.y0.is_nan() ==> common.y0 == first.y0
            &&& second.x1.is_nan() && !first.x1.is_nan() ==> common.x1 == first.x1
            &&& second.y1.is_nan() && !first.y1.is_nan() ==> common.y1 == first.y1
        }),
{
}

/// There is nothing inside a rectangle exactly if one of its sides is not before
/// the side across from it; one with a side that is not a number is not taken to
/// be such a rectangle.
pub proof fn void_rectangles_have_no_extent(area: ClipRect)
    requires
        !area.x0.is_nan() && !area.y0.is_nan() && !area.x1.is_nan() && !area.y1.is_nan(),
    ensures
        area.is_void() <==> area.x0.rank() >= area.x1.rank() || area.y0.rank() >= area.y1.rank(),
{
}

} // verus!
