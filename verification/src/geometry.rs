//! The world-geometry taxonomy: what kinds of geometry exist and how a
//! static map is put together out of sectors and external references.

use vstd::prelude::*;

use crate::ids::CollisionMeshId;
use crate::ids::NodeId;
use crate::ids::SurfaceId;

verus! {

/// One logical room or region of a static map: the ordered list of references
/// to the surfaces that bound it.
///
/// The order of the list is significant, and the same surface may appear more
/// than once (a wall shared between two rooms); a sector owns none of the
/// surface data itself.
#[derive(Debug)]
pub struct Sector {
    surfaces: Vec<SurfaceId>,
}

impl View for Sector {
    type V = Seq<SurfaceId>;

    closed spec fn view(&self) -> Seq<SurfaceId> {
        self.surfaces@
    }
}

/// Two sectors are the same exactly when their surface sequences are: same
/// references, in the same order, repetitions included.
pub open spec fn sector_eq(a: Sector, b: Sector) -> bool {
    a@ == b@
}

impl Sector {
    /// A sector bounded by exactly the given surfaces, in the given order.
    pub fn new(surfaces: Vec<SurfaceId>) -> (r: Sector)
        ensures
            r@ == surfaces@,
    {
        Sector { surfaces }
    }

    /// The surfaces bounding this sector, in order.
    pub fn surfaces(&self) -> (r: &Vec<SurfaceId>)
        ensures
            r@ == self@,
    {
        &self.surfaces
    }
}

impl PartialEq for Sector {
    fn eq(&self, other: &Sector) -> (r: bool) {
        if self.surfaces.len() != other.surfaces.len() {
            return false;
        }
        let mut i: usize = 0;
        while i < self.surfaces.len()
            invariant
                i <= self.surfaces@.len(),
                self.surfaces@.len() == other.surfaces@.len(),
                forall|k: int| 0 <= k < i ==> self.surfaces@[k] == other.surfaces@[k],
            decreases self.surfaces@.len() - i,
        {
            if self.surfaces[i] != other.surfaces[i] {
                return false;
            }
            i += 1;
        }
        proof {
            assert(self.surfaces@ =~= other.surfaces@);
        }
        true
    }
}

impl vstd::std_specs::cmp::PartialEqSpecImpl for Sector {
    open spec fn obeys_eq_spec() -> bool {
        true
    }

    open spec fn eq_spec(&self, other: &Sector) -> bool {
        sector_eq(*self, *other)
    }
}

/// Fully specified static world geometry: ordered sectors, an optional
/// reference into the collision store, and a mandatory link into the render
/// graph.
///
/// Sector order is preserved, never treated as a set: later sectors may
/// depend on earlier ones.
#[derive(Debug)]
pub struct StaticMap {
    pub collision_mesh: Option<CollisionMeshId>,
    pub sectors: Vec<Sector>,
    pub render_node: NodeId,
}

/// Two static maps are the same exactly when they agree on the collision-mesh
/// reference, the render node, and the sector sequence, sector by sector.
pub open spec fn static_map_eq(a: StaticMap, b: StaticMap) -> bool {
    &&& a.collision_mesh == b.collision_mesh
    &&& a.render_node == b.render_node
    &&& a.sectors@.len() == b.sectors@.len()
    &&& forall|k: int| 0 <= k < a.sectors@.len() ==> sector_eq(a.sectors@[k], b.sectors@[k])
}

impl Default for StaticMap {
    /// A map with no collision geometry, no sectors, and the placeholder
    /// render node.
    fn default() -> (r: StaticMap)
        ensures
            r.collision_mesh matches Option::None,
            r.sectors@.len() == 0,
            r.render_node.0 == 0,
    {
        StaticMap { collision_mesh: Option::None, sectors: Vec::new(), render_node: NodeId(0) }
    }
}

impl PartialEq for StaticMap {
    fn eq(&self, other: &StaticMap) -> (r: bool) {
        let cm_eq: bool = match (self.collision_mesh, other.collision_mesh) {
            (Option::None, Option::None) => true,
            (Option::Some(a), Option::Some(b)) => a == b,
            _ => false,
        };
        if !cm_eq {
            return false;
        }
        if self.render_node != other.render_node {
            return false;
        }
        if self.sectors.len() != other.sectors.len() {
            return false;
        }
        let mut i: usize = 0;
        while i < self.sectors.len()
            invariant
                i <= self.sectors@.len(),
                self.sectors@.len() == other.sectors@.len(),
                forall|k: int| 0 <= k < i ==> sector_eq(self.sectors@[k], other.sectors@[k]),
            decreases self.sectors@.len() - i,
        {
            let a = &self.sectors[i];
            let b = &other.sectors[i];
            if !a.eq(b) {
                return false;
            }
            i += 1;
        }
        true
    }
}

impl vstd::std_specs::cmp::PartialEqSpecImpl for StaticMap {
    open spec fn obeys_eq_spec() -> bool {
        true
    }

    open spec fn eq_spec(&self, other: &StaticMap) -> bool {
        static_map_eq(*self, *other)
    }
}

/// World geometry: the things that don't necessarily move or "think" — think
/// floors, walls, and ceilings.
///
/// `Todo` is the explicit placeholder for a slot with no geometry assigned
/// yet; it carries no data and must never be treated as renderable or
/// collidable by downstream systems.
#[derive(Debug)]
pub enum Geometry {
    StaticMap(StaticMap),
    Todo,
}

/// Two geometry values are the same exactly when they are the same variant
/// and, for static maps, the maps agree.
pub open spec fn geometry_eq(a: Geometry, b: Geometry) -> bool {
    match (a, b) {
        (Geometry::StaticMap(ma), Geometry::StaticMap(mb)) => static_map_eq(ma, mb),
        (Geometry::Todo, Geometry::Todo) => true,
        _ => false,
    }
}

impl Default for Geometry {
    /// The value of a slot with no geometry assigned: the placeholder.
    fn default() -> (r: Geometry)
        ensures
            r matches Geometry::Todo,
    {
        Geometry::Todo
    }
}

impl PartialEq for Geometry {
    fn eq(&self, other: &Geometry) -> (r: bool) {
        match (self, other) {
            (Geometry::StaticMap(a), Geometry::StaticMap(b)) => a.eq(b),
            (Geometry::Todo, Geometry::Todo) => true,
            _ => false,
        }
    }
}

impl vstd::std_specs::cmp::PartialEqSpecImpl for Geometry {
    open spec fn obeys_eq_spec() -> bool {
        true
    }

    open spec fn eq_spec(&self, other: &Geometry) -> bool {
        geometry_eq(*self, *other)
    }
}

} // verus!
