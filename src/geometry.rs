//! When the two shapes report an intersection.
//!
//! The caller computes the quantities named below in binary64 and hands in
//! their bit patterns; the distance that follows a reported hit is computed by
//! the caller as well, and the nearest-hit query discards it unless it is
//! positive.
use vstd::prelude::*;
use crate::ordering::{lt, less_than, POSITIVE_ZERO};

verus! {

/// A sphere is hit unless its centre lies behind the ray origin along the
/// ray (`v < 0`, where `v` is the projection of the vector from the origin to
/// the centre onto the direction) or the discriminant
/// `radius^2 - |eo|^2 + v^2` is negative.
pub open spec fn sphere_hit(v: u64, disc: u64) -> bool {
    !lt(v, POSITIVE_ZERO) && !lt(disc, POSITIVE_ZERO)
}

/// A plane is hit unless the ray faces away from its front side, that is
/// unless `denom`, the dot product of the plane's normal and the ray
/// direction, is positive.
pub open spec fn plane_hit(denom: u64) -> bool {
    !lt(POSITIVE_ZERO, denom)
}

/// Whether a sphere reports an intersection; the distance is then
/// `v - sqrt(disc)`.
pub fn sphere_reports_hit(v: u64, disc: u64) -> (r: bool)
    ensures
        r == sphere_hit(v, disc),
        lt(v, POSITIVE_ZERO) ==> !r,
        lt(disc, POSITIVE_ZERO) ==> !r,
{
    !less_than(v, POSITIVE_ZERO) && !less_than(disc, POSITIVE_ZERO)
}

/// Whether a plane reports an intersection; the distance is then
/// `(dot(normal, start) + offset) / -denom`.
pub fn plane_reports_hit(denom: u64) -> (r: bool)
    ensures
        r == plane_hit(denom),
        lt(POSITIVE_ZERO, denom) ==> !r,
{
    !less_than(POSITIVE_ZERO, denom)
}

} // verus!
