use world_geometry::ids::GeometryId;
use world_geometry::ids::PoolId;
use world_geometry::ids::SurfaceId;
use world_geometry::pool::ExhaustedError;
use world_geometry::pool::Pool;

#[test]
fn allocation_run_is_strictly_increasing() {
    let mut pool: Pool<GeometryId> = Pool::new();
    let a = pool.allocate().unwrap();
    let b = pool.allocate().unwrap();
    let c = pool.allocate().unwrap();
    let d = pool.allocate().unwrap();
    let e = pool.allocate().unwrap();
    assert!(a.0 < b.0 && b.0 < c.0 && c.0 < d.0 && d.0 < e.0);
    assert_ne!(a, b);
    assert_ne!(a, c);
    assert_ne!(a, d);
    assert_ne!(a, e);
    assert_ne!(b, c);
    assert_ne!(b, d);
    assert_ne!(b, e);
    assert_ne!(c, d);
    assert_ne!(c, e);
    assert_ne!(d, e);
}

#[test]
fn different_kinds_may_share_integers() {
    let mut geometry_pool: Pool<GeometryId> = Pool::new();
    let mut surface_pool: Pool<SurfaceId> = Pool::new();
    let g = geometry_pool.allocate().unwrap();
    let s = surface_pool.allocate().unwrap();
    assert_eq!(g.0, s.0);
    assert_eq!(geometry_pool.allocate().unwrap(), GeometryId(1));
    assert_eq!(surface_pool.allocate().unwrap(), SurfaceId(1));
}

#[test]
fn pool_past_zero_never_returns_default() {
    let mut pool: Pool<GeometryId> = Pool::starting_at(GeometryId(1));
    let first = pool.allocate().unwrap();
    assert_ne!(first, GeometryId::default());
    let second = pool.allocate().unwrap();
    assert_ne!(second, GeometryId::default());
}

#[test]
fn successive_allocations_step_by_one() {
    let mut pool: Pool<GeometryId> = Pool::new();
    let first = pool.allocate().unwrap();
    let second = pool.allocate().unwrap();
    assert_eq!(second.0, first.0 + 1);
}

#[test]
fn fresh_pool_starts_at_zero() {
    let mut pool: Pool<GeometryId> = Pool::new();
    assert_eq!(pool.allocate().unwrap(), GeometryId(0));
}

#[test]
fn exhausted_pool_reports_error() {
    let mut pool: Pool<GeometryId> = Pool::starting_at(GeometryId(u64::MAX));
    assert_eq!(pool.allocate(), Err(ExhaustedError));
    assert_eq!(pool.allocate(), Err(ExhaustedError));
}

#[test]
fn last_value_before_exhaustion() {
    let mut pool: Pool<GeometryId> = Pool::starting_at(GeometryId(u64::MAX - 1));
    assert_eq!(pool.allocate(), Ok(GeometryId(u64::MAX - 1)));
    assert_eq!(pool.allocate(), Err(ExhaustedError));
}
