use vstd::prelude::*;

verus! {

/// The single galaxy record: its identity and display name.
#[derive(Debug)]
pub struct Galaxy {
    pub id: i32,
    pub name: String,
}

/// Star classification. The classification gates the physical attribute
/// ranges of the system's star (see `star_attrs_wf`).
#[derive(Clone, Copy, Debug, PartialEq, Eq, Structural)]
pub enum StarType {
    MainSequence,
    RedGiant,
    WhiteDwarf,
    Neutron,
    BlackHole,
}

/// Kind of a celestial body.
#[derive(Clone, Copy, Debug, PartialEq, Eq, Structural)]
pub enum CelestialBodyType {
    Planet,
    Moon,
    Asteroid,
}

/// One star system of the galaxy.
///
/// The position is an exact rational point: the coordinates are
/// `x / w`, `y / w`, `z / w`. The hub system sits at the origin
/// (`x == y == z == 0`); every other system lies exactly on the unit
/// sphere (`x*x + y*y + z*z == w*w` with `w > 0`).
///
/// Physical attributes are fixed-point integers:
/// `star_mass` in milli solar masses, `star_radius` in micro solar radii,
/// `star_temperature` in kelvin, `star_luminosity` in micro solar
/// luminosities.
#[derive(Debug)]
pub struct StarSystem {
    pub id: i32,
    pub galaxy_id: i32,
    pub name: String,
    pub x: i64,
    pub y: i64,
    pub z: i64,
    pub w: i64,
    pub star_type: StarType,
    pub star_mass: u64,
    pub star_radius: u64,
    pub star_temperature: u64,
    pub star_luminosity: u64,
}

/// One celestial body of a star system.
///
/// Attributes are fixed-point integers: `orbit_distance` in milli
/// astronomical units, `size` in kilometres, `mass` in units of
/// 10^14 kilograms, `temperature` in kelvin.
#[derive(Debug)]
pub struct CelestialBody {
    pub id: i32,
    pub system_id: i32,
    pub name: String,
    pub body_type: CelestialBodyType,
    pub orbit_distance: u64,
    pub size: u64,
    pub mass: u64,
    pub temperature: u64,
    pub atmosphere: Option<String>,
}

/// One resource deposit of a celestial body. `abundance` is a fraction
/// in parts per million, so it lies in `[0, 1_000_000)`. Deposits of the
/// same resource may repeat on one body; they are not merged.
#[derive(Debug)]
pub struct CelestialBodyResource {
    pub body_id: i32,
    pub resource_id: i32,
    pub abundance: u64,
}

impl Clone for Galaxy {
    fn clone(&self) -> (r: Self)
        ensures
            r == *self,
    {
        Galaxy { id: self.id, name: self.name.clone() }
    }
}

impl Clone for StarSystem {
    fn clone(&self) -> (r: Self)
        ensures
            r == *self,
    {
        StarSystem {
            id: self.id,
            galaxy_id: self.galaxy_id,
            name: self.name.clone(),
            x: self.x,
            y: self.y,
            z: self.z,
            w: self.w,
            star_type: self.star_type,
            star_mass: self.star_mass,
            star_radius: self.star_radius,
            star_temperature: self.star_temperature,
            star_luminosity: self.star_luminosity,
        }
    }
}

impl Clone for CelestialBody {
    fn clone(&self) -> (r: Self)
        ensures
            r == *self,
    {
        CelestialBody {
            id: self.id,
            system_id: self.system_id,
            name: self.name.clone(),
            body_type: self.body_type,
            orbit_distance: self.orbit_distance,
            size: self.size,
            mass: self.mass,
            temperature: self.temperature,
            atmosphere: match &self.atmosphere {
                Some(a) => Some(a.clone()),
                None => None,
            },
        }
    }
}

impl Clone for CelestialBodyResource {
    fn clone(&self) -> (r: Self)
        ensures
            r == *self,
    {
        CelestialBodyResource {
            body_id: self.body_id,
            resource_id: self.resource_id,
            abundance: self.abundance,
        }
    }
}

/// The system sits exactly at the galaxy-space origin.
pub open spec fn at_origin(s: StarSystem) -> bool {
    s.x == 0 && s.y == 0 && s.z == 0
}

/// The rational point `(x/w, y/w, z/w)` lies exactly on the unit sphere.
pub open spec fn sphere_coords(x: int, y: int, z: int, w: int) -> bool {
    w > 0 && x * x + y * y + z * z == w * w
}

/// The system's position lies exactly on the unit sphere around the origin.
pub open spec fn on_unit_sphere(s: StarSystem) -> bool {
    sphere_coords(s.x as int, s.y as int, s.z as int, s.w as int)
}

/// A system on the unit sphere is never at the origin, so a well-formed
/// galaxy holds exactly one system at the origin: the hub.
pub proof fn lemma_sphere_excludes_origin(s: StarSystem)
    requires
        on_unit_sphere(s),
    ensures
        !at_origin(s),
{
    if at_origin(s) {
        assert((s.w as int) * (s.w as int) > 0) by (nonlinear_arith)
            requires
                s.w > 0,
        ;
    }
}

/// The classification-specific range table: each star classification fixes
/// the ranges (inclusive lower bound, exclusive upper bound) that the
/// star's physical attributes are drawn from. Black holes have zero
/// radius, temperature and luminosity.
pub open spec fn star_attrs_wf(s: StarSystem) -> bool {
    match s.star_type {
        StarType::MainSequence => {
            &&& 100 <= s.star_mass < 50_000
            &&& 100_000 <= s.star_radius < 50_000_000
            &&& 2_000 <= s.star_temperature < 30_000
            &&& 100 <= s.star_luminosity < 1_000_000_000_000
        },
        StarType::RedGiant => {
            &&& 500 <= s.star_mass < 10_000
            &&& 10_000_000 <= s.star_radius < 1_000_000_000
            &&& 3_000 <= s.star_temperature < 5_000
            &&& 100_000_000 <= s.star_luminosity < 10_000_000_000
        },
        StarType::WhiteDwarf => {
            &&& 170 <= s.star_mass < 1_330
            &&& 8_000 <= s.star_radius < 20_000
            &&& 4_000 <= s.star_temperature < 40_000
            &&& 100 <= s.star_luminosity < 100_000
        },
        StarType::Neutron => {
            &&& 1_400 <= s.star_mass < 3_000
            &&& 10 <= s.star_radius < 20
            &&& 100_000 <= s.star_temperature < 1_000_000
            &&& 100_000 <= s.star_luminosity < 1_000_000
        },
        StarType::BlackHole => {
            &&& 3_000 <= s.star_mass < 100_000
            &&& s.star_radius == 0
            &&& s.star_temperature == 0
            &&& s.star_luminosity == 0
        },
    }
}

/// Attribute ranges of a celestial body, independent of its kind.
pub open spec fn body_attrs_wf(b: CelestialBody) -> bool {
    &&& 100 <= b.orbit_distance < 10_000
    &&& 100 <= b.size < 100_000
    &&& 1_000_000 <= b.mass < 10_000_000_000_000
    &&& 50 <= b.temperature < 500
}

/// Attribute ranges of a resource deposit: one of ten resources, with an
/// abundance fraction below one.
pub open spec fn resource_attrs_wf(r: CelestialBodyResource) -> bool {
    &&& 1 <= r.resource_id <= 10
    &&& r.abundance < 1_000_000
}

/// The bodies of `bodies` that belong to the system with id `system_id`,
/// in order.
pub open spec fn bodies_of_system(bodies: Seq<CelestialBody>, system_id: int) -> Seq<CelestialBody>
    decreases bodies.len(),
{
    if bodies.len() == 0 {
        Seq::empty()
    } else {
        let rest = bodies_of_system(bodies.drop_last(), system_id);
        if bodies.last().system_id == system_id {
            rest.push(bodies.last())
        } else {
            rest
        }
    }
}

/// How many bodies of `bodies` belong to the system with id `system_id`.
pub open spec fn body_count_of_system(bodies: Seq<CelestialBody>, system_id: int) -> nat {
    bodies_of_system(bodies, system_id).len()
}

/// How many deposits of `resources` belong to the body with id `body_id`.
pub open spec fn resource_count_of_body(
    resources: Seq<CelestialBodyResource>,
    body_id: int,
) -> nat
    decreases resources.len(),
{
    if resources.len() == 0 {
        0
    } else {
        resource_count_of_body(resources.drop_last(), body_id) + if resources.last().body_id
            == body_id {
            1nat
        } else {
            0nat
        }
    }
}

pub proof fn lemma_bodies_of_system_push(bodies: Seq<CelestialBody>, b: CelestialBody, sid: int)
    ensures
        bodies_of_system(bodies.push(b), sid) == if b.system_id == sid {
            bodies_of_system(bodies, sid).push(b)
        } else {
            bodies_of_system(bodies, sid)
        },
{
    assert(bodies.push(b).drop_last() =~= bodies);
    assert(bodies.push(b).last() == b);
}

pub proof fn lemma_resource_count_push(
    resources: Seq<CelestialBodyResource>,
    r: CelestialBodyResource,
    bid: int,
)
    ensures
        resource_count_of_body(resources.push(r), bid) == resource_count_of_body(resources, bid)
            + if r.body_id == bid {
            1int
        } else {
            0int
        },
{
    assert(resources.push(r).drop_last() =~= resources);
    assert(resources.push(r).last() == r);
}

/// Consistency of one assembled galaxy graph, the output of the assembler:
/// one galaxy, ten systems (the hub at the origin, nine on the unit
/// sphere), three to seven bodies per system, one to four deposits per
/// body, and every attribute inside its range.
pub open spec fn galaxy_graph_wf(
    g: Galaxy,
    systems: Seq<StarSystem>,
    bodies: Seq<CelestialBody>,
    resources: Seq<CelestialBodyResource>,
) -> bool {
    &&& g.id == 1
    &&& systems.len() == 10
    &&& forall|i: int| 0 <= i < systems.len() ==> (#[trigger] systems[i]).id == i + 1
    &&& forall|i: int| 0 <= i < systems.len() ==> (#[trigger] systems[i]).galaxy_id == g.id
    &&& forall|i: int| 0 <= i < systems.len() ==> star_attrs_wf(#[trigger] systems[i])
    &&& at_origin(systems[0])
    &&& forall|i: int| 1 <= i < systems.len() ==> on_unit_sphere(#[trigger] systems[i])
    &&& forall|j: int| 0 <= j < bodies.len() ==> (#[trigger] bodies[j]).id == j + 1
    &&& forall|j: int| 0 <= j < bodies.len() ==> 1 <= (#[trigger] bodies[j]).system_id <= 10
    &&& forall|j: int| 0 <= j < bodies.len() ==> body_attrs_wf(#[trigger] bodies[j])
    &&& forall|sid: int|
        1 <= sid <= 10 ==> 3 <= #[trigger] body_count_of_system(bodies, sid) <= 7
    &&& 30 <= bodies.len() <= 70
    &&& forall|k: int| 0 <= k < resources.len() ==> resource_attrs_wf(#[trigger] resources[k])
    &&& forall|k: int|
        0 <= k < resources.len() ==> 1 <= (#[trigger] resources[k]).body_id <= bodies.len()
    &&& forall|bid: int|
        1 <= bid <= bodies.len() ==> 1 <= #[trigger] resource_count_of_body(resources, bid) <= 4
    &&& bodies.len() <= resources.len() <= 4 * bodies.len()
}

} // verus!
