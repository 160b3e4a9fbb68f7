use vstd::prelude::*;

pub mod ordering;
pub mod search;
pub mod geometry;
pub mod surface;
pub mod raster;
pub mod tracer;

verus! {

} // verus!
