//! Which root of a sphere's quadratic is hit, and which object of a scene
//! holds the nearest hit.
//!
//! Each object reports at most one hit distance along the ray, already
//! restricted to the accepted interval. A distance is given by an order key:
//! any unsigned value that orders as the distances do (for the non-negative
//! distances of accepted hits, the bit pattern of an IEEE 754 double does).

use vstd::prelude::*;

verus! {

/// Which root of a sphere's quadratic a ray hits.
#[derive(Clone, Copy, Debug, PartialEq, Eq, Structural)]
pub enum Root {
    /// The smaller root, `(-half_b - sqrt(d)) / a`: where the ray enters.
    Near,
    /// The larger root, `(-half_b + sqrt(d)) / a`: where the ray leaves.
    Far,
}

/// The root that a sphere reports: none when the discriminant is negative;
/// else the smaller root if it lies strictly inside the accepted interval;
/// else the larger one if it does; else none.
pub fn choose_root(discriminant_negative: bool, near_in_range: bool, far_in_range: bool) -> (r:
    Option<Root>)
    ensures
        discriminant_negative ==> r is None,
        !discriminant_negative && near_in_range ==> r == Some(Root::Near),
        !discriminant_negative && !near_in_range && far_in_range ==> r == Some(Root::Far),
        !near_in_range && !far_in_range ==> r is None,
{
    if discriminant_negative {
        None
    } else if near_in_range {
        Some(Root::Near)
    } else if far_in_range {
        Some(Root::Far)
    } else {
        None
    }
}

/// Index `i` holds a hit, every earlier hit is strictly farther and every
/// later hit is at least as far: the nearest hit, the first one on ties.
pub open spec fn is_nearest(hits: Seq<Option<u64>>, i: int) -> bool {
    &&& 0 <= i < hits.len()
    &&& hits[i] is Some
    &&& forall|j: int|
        0 <= j < i && (#[trigger] hits[j]) is Some ==> hits[j]->0 > hits[i]->0
    &&& forall|j: int|
        i < j < hits.len() && (#[trigger] hits[j]) is Some ==> hits[j]->0 >= hits[i]->0
}

/// No object reports a hit.
pub open spec fn all_miss(hits: Seq<Option<u64>>) -> bool {
    forall|j: int| 0 <= j < hits.len() ==> (#[trigger] hits[j]) is None
}

/// The index of the nearest of the reported hits, scanning the objects in
/// order and keeping a hit only when it is strictly closer than the best so
/// far; `None` when no object was hit.
pub fn nearest_hit(hits: &Vec<Option<u64>>) -> (r: Option<usize>)
    ensures
        r is None <==> all_miss(hits@),
        r matches Some(i) ==> is_nearest(hits@, i as int),
{
    let mut best: Option<(usize, u64)> = None;
    let mut i: usize = 0;
    while i < hits.len()
        invariant
            i <= hits@.len(),
            best is None <==> all_miss(hits@.subrange(0, i as int)),
            best matches Some((b, e)) ==> {
                &&& is_nearest(hits@.subrange(0, i as int), b as int)
                &&& hits@[b as int] == Some(e)
            },
        decreases hits.len() - i,
    {
        let ghost prev = hits@.subrange(0, i as int);
        let ghost next = hits@.subrange(0, i + 1);
        assert(forall|j: int| 0 <= j < i ==> next[j] == prev[j]);
        if let Some(d) = hits[i] {
            let closer = match best {
                None => true,
                Some((_, e)) => d < e,
            };
            if closer {
                best = Some((i, d));
            }
        }
        i = i + 1;
    }
    assert(hits@.subrange(0, hits@.len() as int) == hits@);
    match best {
        Some((b, _)) => Some(b),
        None => None,
    }
}

} // verus!
