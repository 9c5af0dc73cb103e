//! Triangles out of lists of points.

use vstd::prelude::*;

verus! {

/// The points that indices stand for, one after the other.
pub fn expand<P: Copy>(points: &Vec<P>, indices: &Vec<u32>) -> (result: Vec<P>)
    requires
        forall|i: int| 0 <= i < indices@.len() ==> (#[trigger] indices@[i]) < points@.len(),
    ensures
        result@ == Seq::new(indices@.len(), |i: int| points@[indices@[i] as int]),
{
    let mut result: Vec<P> = Vec::new();
    let mut i: usize = 0;
    while i < indices.len()
        invariant
            i <= indices.len(),
            forall|j: int| 0 <= j < indices@.len() ==> (#[trigger] indices@[j]) < points@.len(),
            result@ == Seq::new(i as nat, |j: int| points@[indices@[j] as int]),
        decreases indices.len() - i,
    {
        result.push(points[indices[i] as usize]);
        assert(result@ =~= Seq::new((i + 1) as nat, |j: int| points@[indices@[j] as int]));
        i += 1;
    }
    result
}

/// Whether every index stands for a point; what cannot be drawn is told apart
/// by this before it is expanded.
pub fn in_range(indices: &Vec<u32>, points: usize) -> (result: bool)
    ensures
        result == (forall|i: int| 0 <= i < indices@.len() ==> (#[trigger] indices@[i]) < points),
{
    let mut i: usize = 0;
    while i < indices.len()
        invariant
            i <= indices.len(),
            forall|j: int| 0 <= j < i ==> (#[trigger] indices@[j]) < points,
        decreases indices.len() - i,
    {
        if indices[i] as usize >= points {
            assert(indices@[i as int] >= points);
            return false;
        }
        i += 1;
    }
    true
}

/// The triangles that corners make, three by three; what is left over makes
/// none.
pub fn triangles<P: Copy>(corners: &Vec<P>) -> (result: Vec<(P, P, P)>)
    ensures
        result@ == Seq::new(
            corners@.len() / 3,
            |i: int| (corners@[3 * i], corners@[3 * i + 1], corners@[3 * i + 2]),
        ),
{
    let count: usize = corners.len() / 3;
    let mut result: Vec<(P, P, P)> = Vec::new();
    let mut i: usize = 0;
    while i < count
        invariant
            i <= count,
            count == corners@.len() / 3,
            corners.len() <= usize::MAX,
            result@ == Seq::new(
                i as nat,
                |j: int| (corners@[3 * j], corners@[3 * j + 1], corners@[3 * j + 2]),
            ),
        decreases count - i,
    {
        result.push((corners[3 * i], corners[3 * i + 1], corners[3 * i + 2]));
        assert(result@ =~= Seq::new(
            (i + 1) as nat,
            |j: int| (corners@[3 * j], corners@[3 * j + 1], corners@[3 * j + 2]),
        ));
        i += 1;
    }
    result
}

} // verus!
