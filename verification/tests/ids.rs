use world_geometry::ids::CollisionMeshId;
use world_geometry::ids::GeometryId;
use world_geometry::ids::NodeId;
use world_geometry::ids::PoolId;
use world_geometry::ids::SurfaceId;

#[test]
fn next_steps_by_one() {
    assert_eq!(GeometryId(3).next(), GeometryId(4));
    assert_eq!(SurfaceId(0).next(), SurfaceId(1));
    assert_eq!(CollisionMeshId(9).next(), CollisionMeshId(10));
    assert_eq!(NodeId(7).next(), NodeId(8));
}

#[test]
fn value_round_trips_through_from_u64() {
    let id = GeometryId::from_u64(42);
    assert_eq!(id, GeometryId(42));
    assert_eq!(id.value(), 42);
    assert_eq!(SurfaceId::from_u64(7).value(), 7);
}

#[test]
fn defaults_are_zero() {
    assert_eq!(GeometryId::default(), GeometryId(0));
    assert_eq!(SurfaceId::default(), SurfaceId(0));
    assert_eq!(CollisionMeshId::default(), CollisionMeshId(0));
    assert_eq!(NodeId::default(), NodeId(0));
}

#[test]
fn same_kind_equality_is_integer_equality() {
    assert_eq!(GeometryId(5), GeometryId(5));
    assert_ne!(GeometryId(5), GeometryId(6));
}
