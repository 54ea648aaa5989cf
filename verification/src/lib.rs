//! Typed identifier allocation and a world-geometry taxonomy for an engine's
//! world state.
//!
//! Every cross-subsystem reference (geometry, surfaces, collision meshes,
//! render-graph nodes) is named by a kind-tagged integer identifier. A
//! [`pool::Pool`] mints those identifiers: each one handed out is strictly
//! greater than every identifier the same pool handed out before, and a
//! retired identifier is never reissued, so stale references can never
//! silently alias a newly created entity.
//!
//! [`geometry::Geometry`] is the taxonomy of world-geometry kinds; its
//! [`geometry::StaticMap`] variant groups ordered [`geometry::Sector`]s of
//! surface references together with an optional collision-mesh reference and
//! a link into the render graph.

pub mod geometry;
pub mod ids;
pub mod pool;
