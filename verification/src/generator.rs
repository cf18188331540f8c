use vstd::prelude::*;

use crate::models::{
    at_origin, body_attrs_wf, body_count_of_system, galaxy_graph_wf, lemma_bodies_of_system_push,
    lemma_resource_count_push, on_unit_sphere, resource_attrs_wf, resource_count_of_body,
    sphere_coords, star_attrs_wf, CelestialBody, CelestialBodyResource, CelestialBodyType, Galaxy,
    StarSystem, StarType,
};
use crate::rng::{rand_i64_range, rand_u64_range};

verus! {

/// Relies on alloc's format machinery to render `prefix`, a space, and the
/// decimal digits of `n` (at least one digit).
#[verifier::external_body]
fn numbered_name(prefix: &str, n: u64) -> (r: String)
    ensures
        r@.len() >= prefix@.len() + 2,
        r@.subrange(0, prefix@.len() as int) == prefix@,
        r@[prefix@.len() as int] == ' ',
{
    format!("{} {}", prefix, n)
}

/// The categorical star-classification table, evaluated over a draw in
/// `[0, 100)`: 71% main sequence, 15% red giant, 10% white dwarf,
/// 3% neutron star, 1% black hole.
pub open spec fn star_type_of_draw(d: u64) -> StarType {
    if d <= 70 {
        StarType::MainSequence
    } else if d <= 85 {
        StarType::RedGiant
    } else if d <= 95 {
        StarType::WhiteDwarf
    } else if d <= 98 {
        StarType::Neutron
    } else {
        StarType::BlackHole
    }
}

pub fn star_type_from_draw(d: u64) -> (t: StarType)
    requires
        d < 100,
    ensures
        t == star_type_of_draw(d),
{
    if d <= 70 {
        StarType::MainSequence
    } else if d <= 85 {
        StarType::RedGiant
    } else if d <= 95 {
        StarType::WhiteDwarf
    } else if d <= 98 {
        StarType::Neutron
    } else {
        StarType::BlackHole
    }
}

/// The categorical body-kind table, evaluated over a draw in `[0, 10)`:
/// 70% planet, 20% moon, 10% asteroid.
pub open spec fn body_type_of_draw(d: u64) -> CelestialBodyType {
    if d <= 6 {
        CelestialBodyType::Planet
    } else if d <= 8 {
        CelestialBodyType::Moon
    } else {
        CelestialBodyType::Asteroid
    }
}

pub fn body_type_from_draw(d: u64) -> (t: CelestialBodyType)
    requires
        d < 10,
    ensures
        t == body_type_of_draw(d),
{
    if d <= 6 {
        CelestialBodyType::Planet
    } else if d <= 8 {
        CelestialBodyType::Moon
    } else {
        CelestialBodyType::Asteroid
    }
}

/// Draw a random point exactly on the unit sphere, returned as the
/// rational quadruple `(x, y, z, w)` with `x*x + y*y + z*z == w*w` and
/// `w > 0`: the point is `(x/w, y/w, z/w)`. Three integer draws `a`, `b`,
/// `c` are mapped through the quadruple `(2ac, 2bc, a*a + b*b - c*c)` of
/// norm `a*a + b*b + c*c`.
pub fn generate_sphere_point() -> (p: (i64, i64, i64, i64))
    ensures
        sphere_coords(p.0 as int, p.1 as int, p.2 as int, p.3 as int),
{
    let a = rand_i64_range(-1000, 1001);
    let b = rand_i64_range(-1000, 1001);
    let c = rand_i64_range(1, 1001);
    proof {
        lemma_sphere_quadruple(a as int, b as int, c as int);
    }
    let x = 2 * a * c;
    let y = 2 * b * c;
    let z = a * a + b * b - c * c;
    let w = a * a + b * b + c * c;
    (x, y, z, w)
}

/// Every integer triple `(a, b, c)` with `c >= 1` yields a quadruple
/// `(2ac, 2bc, a*a + b*b - c*c, a*a + b*b + c*c)` that lies exactly on
/// the sphere of radius `a*a + b*b + c*c`.
proof fn lemma_sphere_quadruple(a: int, b: int, c: int)
    requires
        -1000 <= a <= 1000,
        -1000 <= b <= 1000,
        1 <= c <= 1000,
    ensures
        (2 * a * c) * (2 * a * c) + (2 * b * c) * (2 * b * c) + (a * a + b * b - c * c) * (a * a
            + b * b - c * c) == (a * a + b * b + c * c) * (a * a + b * b + c * c),
        0 <= a * a <= 1_000_000,
        0 <= b * b <= 1_000_000,
        1 <= c * c <= 1_000_000,
        -2_000_000 <= 2 * a * c <= 2_000_000,
        -2_000_000 <= 2 * b * c <= 2_000_000,
{
    assert(0 <= a * a <= 1_000_000 && -2_000_000 <= 2 * a * c <= 2_000_000) by (nonlinear_arith)
        requires
            -1000 <= a <= 1000,
            1 <= c <= 1000,
    ;
    assert(0 <= b * b <= 1_000_000 && -2_000_000 <= 2 * b * c <= 2_000_000) by (nonlinear_arith)
        requires
            -1000 <= b <= 1000,
            1 <= c <= 1000,
    ;
    assert(1 <= c * c <= 1_000_000) by (nonlinear_arith)
        requires
            1 <= c <= 1000,
    ;
    let s = a * a + b * b;
    let t = c * c;
    assert((2 * a * c) * (2 * a * c) == 4 * (a * a) * (c * c)) by (nonlinear_arith);
    assert((2 * b * c) * (2 * b * c) == 4 * (b * b) * (c * c)) by (nonlinear_arith);
    assert(4 * (a * a) * (c * c) + 4 * (b * b) * (c * c) == 4 * (a * a + b * b) * (c * c))
        by (nonlinear_arith);
    lemma_square_expansion(s, t);
}

/// The binomial rearrangement `4st + (s - t)^2 == (s + t)^2`.
proof fn lemma_square_expansion(s: int, t: int)
    ensures
        4 * s * t + (s - t) * (s - t) == (s + t) * (s + t),
{
    assert(4 * s * t + (s - t) * (s - t) == (s + t) * (s + t)) by (nonlinear_arith);
}

/// Generate one star system at the given rational position: draw the
/// classification from the categorical table, then draw each physical
/// attribute from the range that the classification gates.
pub fn generate_star_system(id: i32, galaxy_id: i32, name: String, x: i64, y: i64, z: i64, w: i64) -> (s:
    StarSystem)
    ensures
        s.id == id,
        s.galaxy_id == galaxy_id,
        s.name == name,
        s.x == x && s.y == y && s.z == z && s.w == w,
        star_attrs_wf(s),
{
    let draw = rand_u64_range(0, 100);
    let star_type = star_type_from_draw(draw);
    let (star_mass, star_radius, star_temperature, star_luminosity): (u64, u64, u64, u64) =
        match star_type {
        StarType::MainSequence => (
            rand_u64_range(100, 50_000),
            rand_u64_range(100_000, 50_000_000),
            rand_u64_range(2_000, 30_000),
            rand_u64_range(100, 1_000_000_000_000),
        ),
        StarType::RedGiant => (
            rand_u64_range(500, 10_000),
            rand_u64_range(10_000_000, 1_000_000_000),
            rand_u64_range(3_000, 5_000),
            rand_u64_range(100_000_000, 10_000_000_000),
        ),
        StarType::WhiteDwarf => (
            rand_u64_range(170, 1_330),
            rand_u64_range(8_000, 20_000),
            rand_u64_range(4_000, 40_000),
            rand_u64_range(100, 100_000),
        ),
        StarType::Neutron => (
            rand_u64_range(1_400, 3_000),
            rand_u64_range(10, 20),
            rand_u64_range(100_000, 1_000_000),
            rand_u64_range(100_000, 1_000_000),
        ),
        StarType::BlackHole => (rand_u64_range(3_000, 100_000), 0, 0, 0),
    };
    StarSystem {
        id,
        galaxy_id,
        name,
        x,
        y,
        z,
        w,
        star_type,
        star_mass,
        star_radius,
        star_temperature,
        star_luminosity,
    }
}

/// Generate one celestial body. `body_number` is the body's sequence
/// number within its system, starting at 1, used for its name; `id` is
/// its galaxy-wide identity. The kind comes from the categorical table
/// over a draw in `[0, 10)`, the attributes from fixed ranges, and the
/// atmosphere from a fair coin flip.
pub fn generate_celestial_body(system_id: i32, body_number: i32, id: i32) -> (b: CelestialBody)
    requires
        1 <= body_number,
    ensures
        b.id == id,
        b.system_id == system_id,
        body_attrs_wf(b),
{
    let type_draw = rand_u64_range(0, 10);
    let coin = rand_u64_range(0, 2);
    CelestialBody {
        id,
        system_id,
        name: numbered_name("Body", body_number as u64),
        body_type: body_type_from_draw(type_draw),
        orbit_distance: rand_u64_range(100, 10_000),
        size: rand_u64_range(100, 100_000),
        mass: rand_u64_range(1_000_000, 10_000_000_000_000),
        temperature: rand_u64_range(50, 500),
        atmosphere: if coin == 1 {
            Some("Generic atmosphere".to_owned())
        } else {
            None
        },
    }
}

proof fn lemma_body_counts_after_push(pre: Seq<CelestialBody>, b: CelestialBody)
    ensures
        forall|s2: int|
            #[trigger] body_count_of_system(pre.push(b), s2) == body_count_of_system(pre, s2)
                + if b.system_id == s2 {
                1int
            } else {
                0int
            },
{
    assert forall|s2: int|
        #[trigger] body_count_of_system(pre.push(b), s2) == body_count_of_system(pre, s2)
            + if b.system_id == s2 {
            1int
        } else {
            0int
        } by {
        lemma_bodies_of_system_push(pre, b, s2);
    }
}

proof fn lemma_resource_counts_after_push(pre: Seq<CelestialBodyResource>, r: CelestialBodyResource)
    ensures
        forall|b2: int|
            #[trigger] resource_count_of_body(pre.push(r), b2) == resource_count_of_body(pre, b2)
                + if r.body_id == b2 {
                1int
            } else {
                0int
            },
{
    assert forall|b2: int|
        #[trigger] resource_count_of_body(pre.push(r), b2) == resource_count_of_body(pre, b2)
            + if r.body_id == b2 {
            1int
        } else {
            0int
        } by {
        lemma_resource_count_push(pre, r, b2);
    }
}

/// Generate between three and seven bodies for one system and append them
/// to `bodies`, numbering them 1, 2, ... within the system and giving each
/// the next galaxy-wide id (one past its position).
fn generate_system_bodies(system_id: i32, bodies: &mut Vec<CelestialBody>)
    requires
        old(bodies)@.len() <= 63,
    ensures
        old(bodies)@.len() + 3 <= final(bodies)@.len() <= old(bodies)@.len() + 7,
        forall|j: int| 0 <= j < old(bodies)@.len() ==> final(bodies)@[j] == old(bodies)@[j],
        forall|j: int|
            old(bodies)@.len() <= j < final(bodies)@.len() ==> {
                &&& (#[trigger] final(bodies)@[j]).id == j + 1
                &&& final(bodies)@[j].system_id == system_id
                &&& body_attrs_wf(final(bodies)@[j])
            },
        forall|s2: int|
            s2 != system_id ==> #[trigger] body_count_of_system(final(bodies)@, s2)
                == body_count_of_system(old(bodies)@, s2),
        body_count_of_system(final(bodies)@, system_id as int) == body_count_of_system(
            old(bodies)@,
            system_id as int,
        ) + final(bodies)@.len() - old(bodies)@.len(),
{
    let num_bodies = rand_u64_range(3, 8);
    let mut j: u64 = 0;
    while j < num_bodies
        invariant
            3 <= num_bodies < 8,
            j <= num_bodies,
            old(bodies)@.len() <= 63,
            bodies@.len() == old(bodies)@.len() + j,
            forall|k: int| 0 <= k < old(bodies)@.len() ==> bodies@[k] == old(bodies)@[k],
            forall|k: int|
                old(bodies)@.len() <= k < bodies@.len() ==> {
                    &&& (#[trigger] bodies@[k]).id == k + 1
                    &&& bodies@[k].system_id == system_id
                    &&& body_attrs_wf(bodies@[k])
                },
            forall|s2: int|
                s2 != system_id ==> #[trigger] body_count_of_system(bodies@, s2)
                    == body_count_of_system(old(bodies)@, s2),
            body_count_of_system(bodies@, system_id as int) == body_count_of_system(
                old(bodies)@,
                system_id as int,
            ) + j,
        decreases num_bodies - j,
    {
        let ghost pre = bodies@;
        let id = (bodies.len() as i32) + 1;
        let body = generate_celestial_body(system_id, (j as i32) + 1, id);
        bodies.push(body);
        proof {
            lemma_body_counts_after_push(pre, body);
        }
        j = j + 1;
    }
}

/// Generate between one and four resource deposits for one body and append
/// them to `resources`. The resource of each deposit is drawn independently
/// with replacement, so one body may hold several deposits of the same
/// resource.
fn generate_body_resources(body_id: i32, resources: &mut Vec<CelestialBodyResource>)
    ensures
        old(resources)@.len() + 1 <= final(resources)@.len() <= old(resources)@.len() + 4,
        forall|k: int| 0 <= k < old(resources)@.len() ==> final(resources)@[k] == old(resources)@[k],
        forall|k: int|
            old(resources)@.len() <= k < final(resources)@.len() ==> {
                &&& (#[trigger] final(resources)@[k]).body_id == body_id
                &&& resource_attrs_wf(final(resources)@[k])
            },
        forall|b2: int|
            b2 != body_id ==> #[trigger] resource_count_of_body(final(resources)@, b2)
                == resource_count_of_body(old(resources)@, b2),
        resource_count_of_body(final(resources)@, body_id as int) == resource_count_of_body(
            old(resources)@,
            body_id as int,
        ) + final(resources)@.len() - old(resources)@.len(),
{
    let num_resources = rand_u64_range(1, 5);
    let mut j: u64 = 0;
    while j < num_resources
        invariant
            1 <= num_resources < 5,
            j <= num_resources,
            resources@.len() == old(resources)@.len() + j,
            forall|k: int| 0 <= k < old(resources)@.len() ==> resources@[k] == old(resources)@[k],
            forall|k: int|
                old(resources)@.len() <= k < resources@.len() ==> {
                    &&& (#[trigger] resources@[k]).body_id == body_id
                    &&& resource_attrs_wf(resources@[k])
                },
            forall|b2: int|
                b2 != body_id ==> #[trigger] resource_count_of_body(resources@, b2)
                    == resource_count_of_body(old(resources)@, b2),
            resource_count_of_body(resources@, body_id as int) == resource_count_of_body(
                old(resources)@,
                body_id as int,
            ) + j,
        decreases num_resources - j,
    {
        let ghost pre = resources@;
        let resource_id = rand_u64_range(1, 11);
        let abundance = rand_u64_range(0, 1_000_000);
        let deposit = CelestialBodyResource {
            body_id,
            resource_id: resource_id as i32,
            abundance,
        };
        resources.push(deposit);
        proof {
            lemma_resource_counts_after_push(pre, deposit);
        }
        j = j + 1;
    }
}

/// Assemble one complete galaxy graph: the hub system at the origin, nine
/// peripheral systems on the unit sphere, three to seven bodies per system
/// and one to four resource deposits per body. The result is a consistent
/// in-memory graph (`galaxy_graph_wf`); nothing is persisted here.
pub fn generate_galaxy(name: String) -> (r: (
    Galaxy,
    Vec<StarSystem>,
    Vec<CelestialBody>,
    Vec<CelestialBodyResource>,
))
    ensures
        r.0.name == name,
        galaxy_graph_wf(r.0, r.1@, r.2@, r.3@),
{
    let galaxy = Galaxy { id: 1, name };
    let mut systems: Vec<StarSystem> = Vec::new();

    // The hub system sits at the origin.
    let hub = generate_star_system(1, 1, "Central System".to_owned(), 0, 0, 0, 1);
    systems.push(hub);

    // Nine peripheral systems on the unit sphere.
    let mut i: u64 = 1;
    while i < 10
        invariant
            1 <= i <= 10,
            systems@.len() == i,
            forall|k: int| 0 <= k < systems@.len() ==> (#[trigger] systems@[k]).id == k + 1,
            forall|k: int| 0 <= k < systems@.len() ==> (#[trigger] systems@[k]).galaxy_id == 1,
            forall|k: int| 0 <= k < systems@.len() ==> star_attrs_wf(#[trigger] systems@[k]),
            at_origin(systems@[0]),
            forall|k: int| 1 <= k < systems@.len() ==> on_unit_sphere(#[trigger] systems@[k]),
        decreases 10 - i,
    {
        let (x, y, z, w) = generate_sphere_point();
        let system_name = numbered_name("System", i + 1);
        let system = generate_star_system((i as i32) + 1, 1, system_name, x, y, z, w);
        systems.push(system);
        i = i + 1;
    }

    // Three to seven bodies for every system.
    let mut bodies: Vec<CelestialBody> = Vec::new();
    let mut si: usize = 0;
    while si < systems.len()
        invariant
            systems@.len() == 10,
            forall|k: int| 0 <= k < systems@.len() ==> (#[trigger] systems@[k]).id == k + 1,
            si <= 10,
            3 * si <= bodies@.len() <= 7 * si,
            forall|j: int|
                0 <= j < bodies@.len() ==> {
                    &&& (#[trigger] bodies@[j]).id == j + 1
                    &&& 1 <= bodies@[j].system_id <= 10
                    &&& body_attrs_wf(bodies@[j])
                },
            forall|s2: int| 1 <= s2 <= si ==> 3 <= #[trigger] body_count_of_system(bodies@, s2) <= 7,
            forall|s2: int| s2 > si ==> #[trigger] body_count_of_system(bodies@, s2) == 0,
        decreases systems@.len() - si,
    {
        let sid = systems[si].id;
        generate_system_bodies(sid, &mut bodies);
        si = si + 1;
    }

    // One to four resource deposits for every body.
    let mut resources: Vec<CelestialBodyResource> = Vec::new();
    let mut bi: usize = 0;
    while bi < bodies.len()
        invariant
            30 <= bodies@.len() <= 70,
            forall|j: int| 0 <= j < bodies@.len() ==> (#[trigger] bodies@[j]).id == j + 1,
            bi <= bodies@.len(),
            bi <= resources@.len() <= 4 * bi,
            forall|k: int|
                0 <= k < resources@.len() ==> {
                    &&& resource_attrs_wf(#[trigger] resources@[k])
                    &&& 1 <= resources@[k].body_id <= bi
                },
            forall|b2: int|
                1 <= b2 <= bi ==> 1 <= #[trigger] resource_count_of_body(resources@, b2) <= 4,
            forall|b2: int| b2 > bi ==> #[trigger] resource_count_of_body(resources@, b2) == 0,
        decreases bodies@.len() - bi,
    {
        let bid = bodies[bi].id;
        generate_body_resources(bid, &mut resources);
        bi = bi + 1;
    }

    (galaxy, systems, bodies, resources)
}

} // verus!
