use galaxy_core::generator::{
    body_type_from_draw, generate_celestial_body, generate_galaxy, generate_sphere_point,
    generate_star_system, star_type_from_draw,
};
use galaxy_core::models::{CelestialBody, CelestialBodyType, StarSystem, StarType};

fn attrs_in_table(s: &StarSystem) -> bool {
    match s.star_type {
        StarType::MainSequence => {
            100 <= s.star_mass
                && s.star_mass < 50_000
                && 100_000 <= s.star_radius
                && s.star_radius < 50_000_000
                && 2_000 <= s.star_temperature
                && s.star_temperature < 30_000
                && 100 <= s.star_luminosity
                && s.star_luminosity < 1_000_000_000_000
        }
        StarType::RedGiant => {
            500 <= s.star_mass
                && s.star_mass < 10_000
                && 10_000_000 <= s.star_radius
                && s.star_radius < 1_000_000_000
                && 3_000 <= s.star_temperature
                && s.star_temperature < 5_000
                && 100_000_000 <= s.star_luminosity
                && s.star_luminosity < 10_000_000_000
        }
        StarType::WhiteDwarf => {
            170 <= s.star_mass
                && s.star_mass < 1_330
                && 8_000 <= s.star_radius
                && s.star_radius < 20_000
                && 4_000 <= s.star_temperature
                && s.star_temperature < 40_000
                && 100 <= s.star_luminosity
                && s.star_luminosity < 100_000
        }
        StarType::Neutron => {
            1_400 <= s.star_mass
                && s.star_mass < 3_000
                && 10 <= s.star_radius
                && s.star_radius < 20
                && 100_000 <= s.star_temperature
                && s.star_temperature < 1_000_000
                && 100_000 <= s.star_luminosity
                && s.star_luminosity < 1_000_000
        }
        StarType::BlackHole => {
            3_000 <= s.star_mass
                && s.star_mass < 100_000
                && s.star_radius == 0
                && s.star_temperature == 0
                && s.star_luminosity == 0
        }
    }
}

fn body_attrs_in_range(b: &CelestialBody) -> bool {
    100 <= b.orbit_distance
        && b.orbit_distance < 10_000
        && 100 <= b.size
        && b.size < 100_000
        && 1_000_000 <= b.mass
        && b.mass < 10_000_000_000_000
        && 50 <= b.temperature
        && b.temperature < 500
}

#[test]
fn star_type_table_boundaries() {
    assert!(matches!(star_type_from_draw(0), StarType::MainSequence));
    assert!(matches!(star_type_from_draw(70), StarType::MainSequence));
    assert!(matches!(star_type_from_draw(71), StarType::RedGiant));
    assert!(matches!(star_type_from_draw(85), StarType::RedGiant));
    assert!(matches!(star_type_from_draw(86), StarType::WhiteDwarf));
    assert!(matches!(star_type_from_draw(95), StarType::WhiteDwarf));
    assert!(matches!(star_type_from_draw(96), StarType::Neutron));
    assert!(matches!(star_type_from_draw(98), StarType::Neutron));
    assert!(matches!(star_type_from_draw(99), StarType::BlackHole));
}

#[test]
fn body_type_table_boundaries() {
    assert!(matches!(body_type_from_draw(0), CelestialBodyType::Planet));
    assert!(matches!(body_type_from_draw(6), CelestialBodyType::Planet));
    assert!(matches!(body_type_from_draw(7), CelestialBodyType::Moon));
    assert!(matches!(body_type_from_draw(8), CelestialBodyType::Moon));
    assert!(matches!(body_type_from_draw(9), CelestialBodyType::Asteroid));
}

#[test]
fn sphere_points_lie_on_unit_sphere() {
    for _ in 0..200 {
        let (x, y, z, w) = generate_sphere_point();
        assert!(w > 0);
        let (xi, yi, zi, wi) = (x as i128, y as i128, z as i128, w as i128);
        assert_eq!(xi * xi + yi * yi + zi * zi, wi * wi);
    }
}

#[test]
fn generated_system_attrs_follow_classification() {
    for i in 0..100 {
        let s = generate_star_system(i + 1, 1, format!("System {}", i + 1), 0, 0, 0, 1);
        assert_eq!(s.id, i + 1);
        assert_eq!(s.galaxy_id, 1);
        assert!(attrs_in_table(&s));
    }
}

#[test]
fn generated_body_attrs_in_range() {
    for j in 0..100 {
        let b = generate_celestial_body(4, j + 1, j + 1);
        assert_eq!(b.id, j + 1);
        assert_eq!(b.system_id, 4);
        assert!(body_attrs_in_range(&b));
        // The body carries a rendered name, not the bare prefix.
        assert!(b.name.len() > "Body".len());
        assert!(b.name.starts_with("Body "));
    }
}

#[test]
fn galaxy_has_one_hub_and_nine_unit_sphere_systems() {
    let (galaxy, systems, _bodies, _resources) = generate_galaxy("Milky Test".to_string());
    assert_eq!(galaxy.id, 1);
    assert_eq!(galaxy.name, "Milky Test");
    assert_eq!(systems.len(), 10);
    let mut at_origin_count = 0;
    for (i, s) in systems.iter().enumerate() {
        assert_eq!(s.id as usize, i + 1);
        assert_eq!(s.galaxy_id, 1);
        if s.x == 0 && s.y == 0 && s.z == 0 {
            at_origin_count += 1;
        } else {
            let (xi, yi, zi, wi) = (s.x as i128, s.y as i128, s.z as i128, s.w as i128);
            assert!(wi > 0);
            assert_eq!(xi * xi + yi * yi + zi * zi, wi * wi);
        }
    }
    assert_eq!(at_origin_count, 1);
    assert!(systems[0].x == 0 && systems[0].y == 0 && systems[0].z == 0);
    assert_eq!(systems[0].name, "Central System");
    for (i, s) in systems.iter().enumerate().skip(1) {
        assert_eq!(s.name, format!("System {}", i + 1));
    }
}

#[test]
fn galaxy_attrs_follow_range_table() {
    let (_galaxy, systems, bodies, _resources) = generate_galaxy("Range Test".to_string());
    for s in &systems {
        assert!(attrs_in_table(s));
    }
    for b in &bodies {
        assert!(body_attrs_in_range(b));
    }
}

#[test]
fn galaxy_counts_and_links_in_bounds() {
    let (_galaxy, systems, bodies, resources) = generate_galaxy("Count Test".to_string());
    assert!(30 <= bodies.len() && bodies.len() <= 70);
    assert!(bodies.len() <= resources.len() && resources.len() <= 4 * bodies.len());

    // Three to seven bodies per system.
    let mut per_system = vec![0usize; systems.len() + 1];
    for (j, b) in bodies.iter().enumerate() {
        assert_eq!(b.id as usize, j + 1);
        assert!(1 <= b.system_id && b.system_id as usize <= systems.len());
        per_system[b.system_id as usize] += 1;
    }
    for sid in 1..=systems.len() {
        assert!(3 <= per_system[sid] && per_system[sid] <= 7);
    }

    // One to four deposits per body; resource ids and abundances in range.
    let mut per_body = vec![0usize; bodies.len() + 1];
    for r in &resources {
        assert!(1 <= r.body_id && r.body_id as usize <= bodies.len());
        assert!(1 <= r.resource_id && r.resource_id <= 10);
        assert!(r.abundance < 1_000_000);
        per_body[r.body_id as usize] += 1;
    }
    for bid in 1..=bodies.len() {
        assert!(1 <= per_body[bid] && per_body[bid] <= 4);
    }
}
