//! Tubular geometry accepted by the mechanical models, in thousandths of
//! an inch.

use vstd::prelude::*;

verus! {

/// Pipe and hole diameters, in thousandths of an inch.
#[derive(Debug, Clone, Copy, PartialEq, Eq)]
pub struct TubularGeometry {
    pub pipe_od: u32,
    pub pipe_id: u32,
    pub hole_diam: u32,
}

/// Configurations the mechanical models reject.
#[derive(Debug, Clone, Copy, PartialEq, Eq)]
pub enum GeometryError {
    /// A non-positive pipe, a bore no narrower than the pipe, or a hole no
    /// wider than the pipe.
    InvalidGeometry,
}

/// A pipe with a wall, inside a hole that leaves clearance around it.
pub open spec fn geometry_is_physical(g: TubularGeometry) -> bool {
    0 < g.pipe_od && g.pipe_id < g.pipe_od && g.pipe_od < g.hole_diam
}

/// Rejects geometry that has no pipe wall or no clearance around the pipe.
pub fn check_geometry(g: TubularGeometry) -> (r: Result<(), GeometryError>)
    ensures
        r is Ok <==> geometry_is_physical(g),
        r is Err ==> r == Err::<(), GeometryError>(GeometryError::InvalidGeometry),
{
    if g.pipe_od > 0 && g.pipe_id < g.pipe_od && g.pipe_od < g.hole_diam {
        Ok(())
    } else {
        Err(GeometryError::InvalidGeometry)
    }
}

} // verus!
