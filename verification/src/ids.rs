//! Kind-tagged integer identifiers.
//!
//! Each entity kind gets its own nominal wrapper around a 64-bit unsigned
//! integer, so a reference of one kind can never be passed, or compared,
//! where another kind is expected. Identifiers are plain value types: they
//! name an entity in that kind's store, they own nothing themselves.

use vstd::prelude::*;

verus! {

/// A kind of identifier that a [`crate::pool::Pool`] can mint.
///
/// Implementors wrap a single `u64`; `id_value` is that integer as the
/// specifications see it.
pub trait PoolId: Sized + Copy {
    /// The integer behind the identifier.
    spec fn id_value(self) -> u64;

    /// The identifier of this kind whose integer is `v`.
    fn from_u64(v: u64) -> (r: Self)
        ensures
            r.id_value() == v,
    ;

    /// The integer behind the identifier.
    fn value(&self) -> (r: u64)
        ensures
            r == self.id_value(),
    ;

    /// The successor identifier, strictly greater under the kind's order.
    /// The pool advances its counter with this.
    fn next(&self) -> (r: Self)
        requires
            self.id_value() < u64::MAX,
        ensures
            r.id_value() == self.id_value() + 1,
    ;
}

/// Names a world-geometry entity in the world's geometry registry.
#[derive(Copy, Clone, Eq, PartialEq, Structural, Hash, Debug)]
pub struct GeometryId(pub u64);

impl Default for GeometryId {
    /// The placeholder value, meaning "no geometry assigned yet".
    fn default() -> (r: GeometryId)
        ensures
            r.0 == 0,
    {
        GeometryId(0)
    }
}

impl PoolId for GeometryId {
    open spec fn id_value(self) -> u64 {
        self.0
    }

    fn from_u64(v: u64) -> (r: GeometryId) {
        GeometryId(v)
    }

    fn value(&self) -> (r: u64) {
        self.0
    }

    fn next(&self) -> (r: GeometryId) {
        GeometryId(self.0 + 1)
    }
}

/// Names a surface in the surface store (an external collaborator).
#[derive(Copy, Clone, Eq, PartialEq, Structural, Hash, Debug)]
pub struct SurfaceId(pub u64);

impl Default for SurfaceId {
    /// The placeholder value, meaning "no surface assigned yet".
    fn default() -> (r: SurfaceId)
        ensures
            r.0 == 0,
    {
        SurfaceId(0)
    }
}

impl PoolId for SurfaceId {
    open spec fn id_value(self) -> u64 {
        self.0
    }

    fn from_u64(v: u64) -> (r: SurfaceId) {
        SurfaceId(v)
    }

    fn value(&self) -> (r: u64) {
        self.0
    }

    fn next(&self) -> (r: SurfaceId) {
        SurfaceId(self.0 + 1)
    }
}

/// Names a collision mesh in the collision store (an external collaborator).
#[derive(Copy, Clone, Eq, PartialEq, Structural, Hash, Debug)]
pub struct CollisionMeshId(pub u64);

impl Default for CollisionMeshId {
    /// The placeholder value, meaning "no collision mesh assigned yet".
    fn default() -> (r: CollisionMeshId)
        ensures
            r.0 == 0,
    {
        CollisionMeshId(0)
    }
}

impl PoolId for CollisionMeshId {
    open spec fn id_value(self) -> u64 {
        self.0
    }

    fn from_u64(v: u64) -> (r: CollisionMeshId) {
        CollisionMeshId(v)
    }

    fn value(&self) -> (r: u64) {
        self.0
    }

    fn next(&self) -> (r: CollisionMeshId) {
        CollisionMeshId(self.0 + 1)
    }
}

/// Names a node in the render graph (an external collaborator).
#[derive(Copy, Clone, Eq, PartialEq, Structural, Hash, Debug)]
pub struct NodeId(pub u64);

impl Default for NodeId {
    /// The placeholder value, meaning "no render node assigned yet".
    fn default() -> (r: NodeId)
        ensures
            r.0 == 0,
    {
        NodeId(0)
    }
}

impl PoolId for NodeId {
    open spec fn id_value(self) -> u64 {
        self.0
    }

    fn from_u64(v: u64) -> (r: NodeId) {
        NodeId(v)
    }

    fn value(&self) -> (r: u64) {
        self.0
    }

    fn next(&self) -> (r: NodeId) {
        NodeId(self.0 + 1)
    }
}

} // verus!
