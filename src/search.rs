//! The nearest-hit query over every object of a scene, and the shadow test
//! built on it.
//!
//! The caller intersects the ray with each object in scene order and hands in
//! what each reported: `None` for no intersection, or the bit pattern of the
//! distance along the ray.
use vstd::prelude::*;
use crate::ordering::{lt, le, less_than, less_or_equal, lemma_special_values, POSITIVE_ZERO, POSITIVE_INFINITY};

verus! {

/// A reported distance counts as a hit only when it is a positive number
/// below infinity.
pub open spec fn is_hit_distance(d: u64) -> bool {
    lt(POSITIVE_ZERO, d) && lt(d, POSITIVE_INFINITY)
}

/// Object `j` reports a hit.
pub open spec fn hit_at(dists: Seq<Option<u64>>, j: int) -> bool {
    dists[j] is Some && is_hit_distance(dists[j]->0)
}

/// No object reports a hit.
pub open spec fn misses_all(dists: Seq<Option<u64>>) -> bool {
    forall|j: int| 0 <= j < dists.len() ==> !hit_at(dists, j)
}

/// Object `i` holds the nearest hit, and no object before it is as near.
pub open spec fn is_closest(dists: Seq<Option<u64>>, i: int) -> bool {
    &&& 0 <= i < dists.len()
    &&& hit_at(dists, i)
    &&& forall|j: int| 0 <= j < dists.len() && hit_at(dists, j) ==> le(dists[i]->0, dists[j]->0)
    &&& forall|j: int| 0 <= j < i && hit_at(dists, j) ==> lt(dists[i]->0, dists[j]->0)
}

/// The index of the object with the nearest hit, the first in scene order
/// among equally near ones; `None` when no object reports a hit.
pub fn closest_intersection(dists: &Vec<Option<u64>>) -> (r: Option<usize>)
    ensures
        r is None <==> misses_all(dists@),
        r matches Some(i) ==> is_closest(dists@, i as int),
{
    proof {
        lemma_special_values();
    }
    let mut closest: u64 = POSITIVE_INFINITY;
    let mut best: Option<usize> = None;
    let mut i: usize = 0;
    while i < dists.len()
        invariant
            i <= dists@.len(),
            best is None ==> closest == POSITIVE_INFINITY,
            best is None ==> forall|j: int| 0 <= j < i ==> !hit_at(dists@, j),
            best matches Some(b) ==> {
                &&& b < i
                &&& hit_at(dists@, b as int)
                &&& closest == dists@[b as int]->0
                &&& forall|j: int| 0 <= j < i && hit_at(dists@, j) ==> le(closest, dists@[j]->0)
                &&& forall|j: int| 0 <= j < b && hit_at(dists@, j) ==> lt(closest, dists@[j]->0)
            },
        decreases dists@.len() - i,
    {
        if let Some(d) = dists[i] {
            if less_than(POSITIVE_ZERO, d) && less_than(d, closest) {
                closest = d;
                best = Some(i);
            }
        }
        i = i + 1;
    }
    best
}

/// The distance of the nearest hit, if any.
pub fn test_ray(dists: &Vec<Option<u64>>) -> (r: Option<u64>)
    ensures
        r is None <==> misses_all(dists@),
        r matches Some(d) ==> exists|i: int| is_closest(dists@, i) && dists@[i] == Some(d),
{
    match closest_intersection(dists) {
        Some(i) => dists[i],
        None => None,
    }
}

/// The shadow test: a light is occluded when the nearest hit along the ray
/// towards it lies no farther than the light itself.
pub fn in_shadow(dists: &Vec<Option<u64>>, light_dist: u64) -> (r: bool)
    ensures
        r <==> exists|i: int| is_closest(dists@, i) && le(dists@[i]->0, light_dist),
{
    match closest_intersection(dists) {
        Some(i) => {
            let d = dists[i].unwrap();
            less_or_equal(d, light_dist)
        },
        None => false,
    }
}

} // verus!
