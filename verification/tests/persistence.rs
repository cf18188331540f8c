use galaxy_core::auth::Claims;
use galaxy_core::generator::generate_galaxy;
use galaxy_core::models::{CelestialBody, CelestialBodyResource, CelestialBodyType, Galaxy};
use galaxy_core::service::GalaxyService;
use galaxy_core::store::{Store, StoreError};

fn row_counts(store: &Store) -> (usize, usize, usize, usize) {
    (
        store.galaxies.len(),
        store.systems.len(),
        store.bodies.len(),
        store.resources.len(),
    )
}

#[test]
fn initialize_fresh_store_persists_one_galaxy() {
    let mut svc = GalaxyService::new(Store::new());
    let galaxy = svc.initialize_galaxy().expect("fresh store must initialize");
    assert_eq!(galaxy.id, 1);
    assert_eq!(galaxy.name, "Proxima Coloniae Galaxy");
    let (g, s, b, r) = row_counts(&svc.store);
    assert_eq!(g, 1);
    assert_eq!(s, 10);
    assert!(30 <= b && b <= 70);
    assert!(b <= r && r <= 4 * b);
}

#[test]
fn initialize_twice_is_idempotent() {
    let mut svc = GalaxyService::new(Store::new());
    let first = svc.initialize_galaxy().expect("first initialization");
    let counts = row_counts(&svc.store);
    let second = svc.initialize_galaxy().expect("second initialization");
    assert_eq!(second.id, first.id);
    assert_eq!(second.name, first.name);
    assert_eq!(row_counts(&svc.store), counts);
}

#[test]
fn initialize_serves_existing_galaxy_without_writing() {
    let mut svc = GalaxyService::new(Store::new());
    svc.generate_and_persist_galaxy("X".to_string())
        .expect("persisting into an empty store");
    let counts = row_counts(&svc.store);
    let galaxy = svc.initialize_galaxy().expect("loading the existing galaxy");
    assert_eq!(galaxy.name, "X");
    assert_eq!(row_counts(&svc.store), counts);
}

#[test]
fn persisted_rows_carry_assigned_ids() {
    let mut store = Store::new();
    store.next_galaxy_id = 5;
    store.next_system_id = 11;
    store.next_body_id = 21;
    let (galaxy, systems, bodies, resources) = generate_galaxy("Assigned".to_string());
    let n_bodies = bodies.len();
    let out = store
        .persist_graph(&galaxy, &systems, &bodies, &resources)
        .expect("persisting into an empty store");
    assert_eq!(out.id, 5);
    assert_eq!(out.name, "Assigned");
    assert_eq!(store.galaxies.len(), 1);
    assert_eq!(store.galaxies[0].id, 5);
    for (i, s) in store.systems.iter().enumerate() {
        assert_eq!(s.id as usize, 11 + i);
        assert_eq!(s.galaxy_id, 5);
    }
    for (j, b) in store.bodies.iter().enumerate() {
        assert_eq!(b.id as usize, 21 + j);
        assert!(11 <= b.system_id && b.system_id < 21);
    }
    for r in &store.resources {
        assert!(21 <= r.body_id && (r.body_id as usize) < 21 + n_bodies);
    }
    assert_eq!(store.next_galaxy_id, 6);
    assert_eq!(store.next_system_id, 21);
    assert_eq!(store.next_body_id as usize, 21 + n_bodies);
}

#[test]
fn persist_refuses_second_galaxy_and_changes_nothing() {
    let mut svc = GalaxyService::new(Store::new());
    svc.initialize_galaxy().expect("first initialization");
    let counts = row_counts(&svc.store);
    let err = svc
        .generate_and_persist_galaxy("Another".to_string())
        .expect_err("the galaxy row is a singleton");
    assert_eq!(err, StoreError::GalaxyAlreadyExists);
    assert_eq!(row_counts(&svc.store), counts);
    assert_eq!(svc.store.galaxies[0].name, "Proxima Coloniae Galaxy");
}

#[test]
fn persist_refuses_dangling_body_and_keeps_store_empty() {
    let mut store = Store::new();
    let galaxy = Galaxy { id: 1, name: "Broken".to_string() };
    let (_, systems, _, _) = generate_galaxy("Donor".to_string());
    let bodies = vec![CelestialBody {
        id: 1,
        system_id: 99,
        name: "Stray".to_string(),
        body_type: CelestialBodyType::Planet,
        orbit_distance: 100,
        size: 100,
        mass: 1_000_000,
        temperature: 50,
        atmosphere: None,
    }];
    let err = store
        .persist_graph(&galaxy, &systems, &bodies, &vec![])
        .expect_err("a body without its system must be refused");
    assert_eq!(err, StoreError::ForeignKeyViolation);
    assert_eq!(row_counts(&store), (0, 0, 0, 0));
}

#[test]
fn persist_refuses_dangling_resource_and_keeps_store_empty() {
    let mut store = Store::new();
    let (galaxy, systems, bodies, _) = generate_galaxy("Donor".to_string());
    let resources = vec![CelestialBodyResource {
        body_id: (bodies.len() as i32) + 1,
        resource_id: 3,
        abundance: 500,
    }];
    let err = store
        .persist_graph(&galaxy, &systems, &bodies, &resources)
        .expect_err("a resource without its body must be refused");
    assert_eq!(err, StoreError::ForeignKeyViolation);
    assert_eq!(row_counts(&store), (0, 0, 0, 0));
}

#[test]
fn persist_refuses_exhausted_id_sequence() {
    let mut store = Store::new();
    store.next_system_id = i32::MAX - 5;
    let (galaxy, systems, bodies, resources) = generate_galaxy("Full".to_string());
    let err = store
        .persist_graph(&galaxy, &systems, &bodies, &resources)
        .expect_err("ten systems do not fit in five remaining ids");
    assert_eq!(err, StoreError::CapacityExceeded);
    assert_eq!(row_counts(&store), (0, 0, 0, 0));
    assert_eq!(store.next_system_id, i32::MAX - 5);
}

#[test]
fn queries_reflect_stored_rows() {
    let mut svc = GalaxyService::new(Store::new());
    assert!(svc.get_galaxy().is_none());
    let galaxy = svc.initialize_galaxy().expect("initialization");
    let loaded = svc.get_galaxy().expect("a galaxy is stored now");
    assert_eq!(loaded.id, galaxy.id);
    assert_eq!(loaded.name, galaxy.name);
    let systems = svc.get_star_systems();
    assert_eq!(systems.len(), 10);
    for (i, s) in systems.iter().enumerate() {
        assert_eq!(s.id as usize, i + 1);
        assert_eq!(s.galaxy_id, galaxy.id);
    }
    let mut total = 0;
    for s in &systems {
        let bodies = svc.get_celestial_bodies(s.id);
        assert!(3 <= bodies.len() && bodies.len() <= 7);
        for b in &bodies {
            assert_eq!(b.system_id, s.id);
        }
        total += bodies.len();
    }
    assert_eq!(total, svc.store.bodies.len());
}

#[test]
fn unknown_system_yields_empty_body_list() {
    let mut svc = GalaxyService::new(Store::new());
    assert!(svc.get_celestial_bodies(1).is_empty());
    svc.initialize_galaxy().expect("initialization");
    let bodies = svc.get_celestial_bodies(9_999);
    assert!(bodies.is_empty());
}

#[test]
fn claims_carry_subject_and_expiry() {
    let claims = Claims { sub: 42, exp: 1_700_000_000 };
    assert_eq!(claims.sub, 42);
    assert_eq!(claims.exp, 1_700_000_000);
}
