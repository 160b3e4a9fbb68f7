//! The depth budget of the recursive tracer.
//!
//! Tracing a ray at some depth shades the nearest hit and then accounts for
//! the reflected light: while budget remains it traces the mirrored ray one
//! level deeper, and once the budget is spent a flat grey stands in.
use vstd::prelude::*;
use crate::search::{closest_intersection, is_closest, misses_all};

verus! {

/// The number of reflection bounces a primary ray may spawn.
pub const MAX_DEPTH: u32 = 5;

/// The tracer may trace a reflected ray from a hit at `depth`.
pub open spec fn may_recurse(depth: u32) -> bool {
    depth < MAX_DEPTH
}

/// Decides the reflection step at `depth`: `Some(next)` means trace the
/// reflected ray at depth `next`; `None` means the depth budget is spent and
/// the grey fallback stands in for the reflection.
pub fn reflection_step(depth: u32) -> (r: Option<u32>)
    ensures
        may_recurse(depth) ==> r == Some((depth + 1) as u32),
        !may_recurse(depth) ==> r is None,
{
    if depth >= MAX_DEPTH {
        None
    } else {
        Some(depth + 1)
    }
}

/// What tracing one ray amounts to, once the nearest hit is known.
#[derive(Clone, Copy, Debug)]
pub enum TraceStep {
    /// Nothing is hit: the ray traces to the background colour, black.
    Background,
    /// Object `thing` holds the nearest hit. Its local illumination is added
    /// to the reflected light, which is traced at `reflect_depth` when that
    /// is `Some`, and is the grey fallback when it is `None`.
    Shade { thing: usize, reflect_depth: Option<u32> },
}

/// Plans the trace of a ray at `depth`, given what each object of the scene
/// reported for it (see `closest_intersection`).
pub fn trace_step(dists: &Vec<Option<u64>>, depth: u32) -> (r: TraceStep)
    ensures
        r is Background <==> misses_all(dists@),
        r matches TraceStep::Shade { thing, reflect_depth } ==> {
            &&& is_closest(dists@, thing as int)
            &&& may_recurse(depth) ==> reflect_depth == Some((depth + 1) as u32)
            &&& !may_recurse(depth) ==> reflect_depth is None
        },
{
    match closest_intersection(dists) {
        None => TraceStep::Background,
        Some(thing) => TraceStep::Shade { thing, reflect_depth: reflection_step(depth) },
    }
}

/// The most nested reflection traces that a trace at `depth` can lead to,
/// reached when every reflected ray hits something.
pub open spec fn nested_reflections(depth: u32) -> nat
    decreases MAX_DEPTH - depth,
{
    if may_recurse(depth) {
        1 + nested_reflections((depth + 1) as u32)
    } else {
        0
    }
}

/// Whatever the scene, a trace started at any depth leads to at most
/// `MAX_DEPTH` nested reflection traces, and a primary ray (depth 0) to
/// exactly that many when every reflected ray hits something.
pub proof fn lemma_reflections_bounded(depth: u32)
    ensures
        nested_reflections(depth) <= MAX_DEPTH,
        depth <= MAX_DEPTH ==> nested_reflections(depth) == MAX_DEPTH - depth,
    decreases MAX_DEPTH - depth,
{
    if may_recurse(depth) {
        lemma_reflections_bounded((depth + 1) as u32);
    }
}

} // verus!
