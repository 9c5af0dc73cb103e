//! Finding the two stops of a gradient between which a colour lies.

use crate::scalar::Real32;
use vstd::prelude::*;

verus! {

/// Whether the stop after the one at `i` is at or beyond `t`.
pub open spec fn reached_by(offsets: Seq<Real32>, t: Real32, i: int) -> bool {
    0 <= i && i + 1 < offsets.len() && t.not_above(offsets[i + 1])
}

/// Whether the stops at `before` and `after` are those that the colour at `t`
/// lies between: the first two of which the later is at or beyond `t`, or the
/// last one alone where there are none.
pub open spec fn surrounds(offsets: Seq<Real32>, t: Real32, before: int, after: int) -> bool {
    ||| {
        &&& reached_by(offsets, t, before)
        &&& after == before + 1
        &&& forall|i: int| 0 <= i < before ==> !#[trigger] reached_by(offsets, t, i)
    }
    ||| {
        &&& before == offsets.len() - 1
        &&& after == before
        &&& forall|i: int| !#[trigger] reached_by(offsets, t, i)
    }
}

/// The stops that the colour at `t` lies between; none where there are no stops.
pub fn surrounding_stops(offsets: &Vec<Real32>, t: Real32) -> (result: Option<(usize, usize)>)
    ensures
        result is None <==> offsets@.len() == 0,
        result matches Some((before, after)) ==> after < offsets@.len() && surrounds(
            offsets@,
            t,
            before as int,
            after as int,
        ),
{
    let count = offsets.len();
    if count == 0 {
        return None;
    }
    let mut i: usize = 0;
    while i < count - 1
        invariant
            0 < count == offsets.len(),
            i <= count - 1,
            forall|j: int| 0 <= j < i ==> !#[trigger] reached_by(offsets@, t, j),
        decreases count - i,
    {
        if t.at_most(offsets[i + 1]) {
            assert(reached_by(offsets@, t, i as int));
            return Some((i, i + 1));
        }
        assert(!reached_by(offsets@, t, i as int));
        i += 1;
    }
    Some((count - 1, count - 1))
}

/// Where a gradient has stops, the colour at a place lies between exactly one
/// pair of them.
pub proof fn stops_are_unambiguous(
    offsets: Seq<Real32>,
    t: Real32,
    first: (int, int),
    second: (int, int),
)
    requires
        surrounds(offsets, t, first.0, first.1),
        surrounds(offsets, t, second.0, second.1),
    ensures
        first == second,
{
    if reached_by(offsets, t, first.0) && reached_by(offsets, t, second.0) {
        if first.0 < second.0 {
            assert(!reached_by(offsets, t, first.0));
        } else if second.0 < first.0 {
            assert(!reached_by(offsets, t, second.0));
        }
    }
}

/// A colour lies between two stops next to each other: not beyond the later, and
/// beyond every one between the first and the earlier.  Up to the second stop it
/// lies between the first two, and beyond all stops it is that of the last.
pub proof fn colours_lie_between_their_stops(
    offsets: Seq<Real32>,
    t: Real32,
    before: int,
    after: int,
)
    requires
        offsets.len() > 0,
        surrounds(offsets, t, before, after),
    ensures
        0 <= before <= after < offsets.len(),
        after == before + 1 || (after == before && after == offsets.len() - 1),
        after == before + 1 ==> t.not_above(offsets[after]),
        forall|i: int| 1 <= i <= before ==> !t.not_above(#[trigger] offsets[i]),
        offsets.len() > 1 && t.not_above(offsets[1]) ==> before == 0 && after == 1,
        (forall|i: int| 1 <= i < offsets.len() ==> !t.not_above(#[trigger] offsets[i])) ==> before
            == offsets.len() - 1 && after == before,
{
    assert forall|i: int| 1 <= i <= before implies !t.not_above(#[trigger] offsets[i]) by {
        assert(!reached_by(offsets, t, i - 1));
    }
    if offsets.len() > 1 && t.not_above(offsets[1]) {
        assert(reached_by(offsets, t, 0));
    }
}

} // verus!
