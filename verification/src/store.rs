use vstd::prelude::*;

use crate::models::{
    bodies_of_system, lemma_bodies_of_system_push, CelestialBody, CelestialBodyResource, Galaxy,
    StarSystem,
};

verus! {

/// Why a write to the store was refused. A refused write leaves the store
/// exactly as it was.
#[derive(Clone, Copy, Debug, PartialEq, Eq, Structural)]
pub enum StoreError {
    /// The singleton constraint on the galaxy table was violated: a galaxy
    /// row already exists.
    GalaxyAlreadyExists,
    /// A row referenced a parent row that the same write did not supply.
    ForeignKeyViolation,
    /// An id sequence would run past its largest value.
    CapacityExceeded,
}

/// An in-memory relational store for the four entity tables. Each table is
/// an ordered sequence of rows; ids are assigned from per-table sequences
/// on insertion. All writes go through `persist_graph`, which is
/// all-or-nothing: it checks every constraint before any row becomes
/// visible.
pub struct Store {
    pub galaxies: Vec<Galaxy>,
    pub systems: Vec<StarSystem>,
    pub bodies: Vec<CelestialBody>,
    pub resources: Vec<CelestialBodyResource>,
    pub next_galaxy_id: i32,
    pub next_system_id: i32,
    pub next_body_id: i32,
}

/// A stored system row: the graph's record, carrying the id the store
/// assigned and the stored galaxy's id.
pub open spec fn system_row(sys: StarSystem, id: i32, galaxy_id: i32) -> StarSystem {
    StarSystem { id, galaxy_id, ..sys }
}

/// A stored body row: the graph's record, carrying the id the store
/// assigned and the stored id of its owning system.
pub open spec fn body_row(b: CelestialBody, id: i32, system_id: i32) -> CelestialBody {
    CelestialBody { id, system_id, ..b }
}

/// A stored resource row: the graph's record, carrying the stored id of
/// its owning body.
pub open spec fn resource_row(r: CelestialBodyResource, body_id: i32) -> CelestialBodyResource {
    CelestialBodyResource { body_id, ..r }
}

/// When `persist_graph` accepts a graph: the galaxy table must be empty
/// (the galaxy is a singleton), the id sequences must have room, and every
/// body and resource must reference a parent supplied in the same write
/// (the graph's system ids are its positions plus one, and likewise its
/// body ids).
pub open spec fn persist_accepted(
    pre: Store,
    systems: Seq<StarSystem>,
    bodies: Seq<CelestialBody>,
    resources: Seq<CelestialBodyResource>,
) -> bool {
    &&& pre.galaxies@.len() == 0
    &&& pre.next_galaxy_id < i32::MAX
    &&& systems.len() <= i32::MAX - pre.next_system_id
    &&& bodies.len() <= i32::MAX - pre.next_body_id
    &&& forall|j: int|
        0 <= j < bodies.len() ==> 1 <= (#[trigger] bodies[j]).system_id <= systems.len()
    &&& forall|k: int|
        0 <= k < resources.len() ==> 1 <= (#[trigger] resources[k]).body_id <= bodies.len()
}

/// What a successful `persist_graph` leaves behind: the returned galaxy row
/// with its assigned id, every graph record appended as a row with its
/// assigned id and translated foreign keys, prior rows untouched, and the
/// id sequences advanced.
pub open spec fn persist_post(
    pre: Store,
    post: Store,
    name: Seq<char>,
    systems: Seq<StarSystem>,
    bodies: Seq<CelestialBody>,
    resources: Seq<CelestialBodyResource>,
    out: Galaxy,
) -> bool {
    &&& out.id == pre.next_galaxy_id
    &&& out.name@ == name
    &&& post.galaxies@ == pre.galaxies@.push(out)
    &&& post.systems@.len() == pre.systems@.len() + systems.len()
    &&& forall|i: int| 0 <= i < pre.systems@.len() ==> post.systems@[i] == pre.systems@[i]
    &&& forall|i: int|
        0 <= i < systems.len() ==> post.systems@[pre.systems@.len() + i] == system_row(
            systems[i],
            (pre.next_system_id + i) as i32,
            out.id,
        )
    &&& post.bodies@.len() == pre.bodies@.len() + bodies.len()
    &&& forall|j: int| 0 <= j < pre.bodies@.len() ==> post.bodies@[j] == pre.bodies@[j]
    &&& forall|j: int|
        0 <= j < bodies.len() ==> post.bodies@[pre.bodies@.len() + j] == body_row(
            bodies[j],
            (pre.next_body_id + j) as i32,
            (pre.next_system_id + bodies[j].system_id - 1) as i32,
        )
    &&& post.resources@.len() == pre.resources@.len() + resources.len()
    &&& forall|k: int| 0 <= k < pre.resources@.len() ==> post.resources@[k] == pre.resources@[k]
    &&& forall|k: int|
        0 <= k < resources.len() ==> post.resources@[pre.resources@.len() + k] == resource_row(
            resources[k],
            (pre.next_body_id + resources[k].body_id - 1) as i32,
        )
    &&& post.next_galaxy_id == pre.next_galaxy_id + 1
    &&& post.next_system_id == pre.next_system_id + systems.len()
    &&& post.next_body_id == pre.next_body_id + bodies.len()
}

fn make_system_row(sys: &StarSystem, id: i32, galaxy_id: i32) -> (r: StarSystem)
    ensures
        r == system_row(*sys, id, galaxy_id),
{
    StarSystem {
        id,
        galaxy_id,
        name: sys.name.clone(),
        x: sys.x,
        y: sys.y,
        z: sys.z,
        w: sys.w,
        star_type: sys.star_type,
        star_mass: sys.star_mass,
        star_radius: sys.star_radius,
        star_temperature: sys.star_temperature,
        star_luminosity: sys.star_luminosity,
    }
}

fn make_body_row(b: &CelestialBody, id: i32, system_id: i32) -> (r: CelestialBody)
    ensures
        r == body_row(*b, id, system_id),
{
    CelestialBody {
        id,
        system_id,
        name: b.name.clone(),
        body_type: b.body_type,
        orbit_distance: b.orbit_distance,
        size: b.size,
        mass: b.mass,
        temperature: b.temperature,
        atmosphere: match &b.atmosphere {
            Some(a) => Some(a.clone()),
            None => None,
        },
    }
}

impl Store {
    /// The id sequences never yield an id below one.
    pub open spec fn wf(self) -> bool {
        &&& 1 <= self.next_galaxy_id
        &&& 1 <= self.next_system_id
        &&& 1 <= self.next_body_id
    }

    /// An empty store whose id sequences have not been used yet.
    pub open spec fn is_fresh(self) -> bool {
        &&& self.galaxies@.len() == 0
        &&& self.systems@.len() == 0
        &&& self.bodies@.len() == 0
        &&& self.resources@.len() == 0
        &&& self.next_galaxy_id == 1
        &&& self.next_system_id == 1
        &&& self.next_body_id == 1
    }

    pub fn new() -> (s: Store)
        ensures
            s.is_fresh(),
            s.wf(),
    {
        Store {
            galaxies: Vec::new(),
            systems: Vec::new(),
            bodies: Vec::new(),
            resources: Vec::new(),
            next_galaxy_id: 1,
            next_system_id: 1,
            next_body_id: 1,
        }
    }

    /// Durably materialize one assembled galaxy graph in a single
    /// transaction. Either every row of the graph becomes visible — the
    /// galaxy under its assigned id, then its systems, bodies and resource
    /// deposits with translated foreign keys — or the write is refused and
    /// the store is left exactly as it was.
    pub fn persist_graph(
        &mut self,
        galaxy: &Galaxy,
        systems: &Vec<StarSystem>,
        bodies: &Vec<CelestialBody>,
        resources: &Vec<CelestialBodyResource>,
    ) -> (r: Result<Galaxy, StoreError>)
        requires
            old(self).wf(),
        ensures
            final(self).wf(),
            r is Ok <==> persist_accepted(*old(self), systems@, bodies@, resources@),
            r is Err ==> *final(self) == *old(self),
            r is Ok ==> r->Ok_0.name == galaxy.name,
            r is Ok ==> persist_post(
                *old(self),
                *final(self),
                galaxy.name@,
                systems@,
                bodies@,
                resources@,
                r->Ok_0,
            ),
    {
        // The write is transactional: every constraint is checked before
        // any row becomes visible, so a refused write changes nothing.
        if self.galaxies.len() > 0 {
            return Err(StoreError::GalaxyAlreadyExists);
        }
        if self.next_galaxy_id == i32::MAX {
            return Err(StoreError::CapacityExceeded);
        }
        if systems.len() > (i32::MAX - self.next_system_id) as usize {
            return Err(StoreError::CapacityExceeded);
        }
        if bodies.len() > (i32::MAX - self.next_body_id) as usize {
            return Err(StoreError::CapacityExceeded);
        }
        let mut j: usize = 0;
        while j < bodies.len()
            invariant
                *self == *old(self),
                old(self).wf(),
                j <= bodies@.len(),
                forall|t: int|
                    0 <= t < j ==> 1 <= (#[trigger] bodies@[t]).system_id <= systems@.len(),
            decreases bodies@.len() - j,
        {
            let sid = bodies[j].system_id;
            if sid < 1 || sid as usize > systems.len() {
                return Err(StoreError::ForeignKeyViolation);
            }
            j = j + 1;
        }
        let mut k: usize = 0;
        while k < resources.len()
            invariant
                *self == *old(self),
                old(self).wf(),
                k <= resources@.len(),
                forall|t: int|
                    0 <= t < k ==> 1 <= (#[trigger] resources@[t]).body_id <= bodies@.len(),
            decreases resources@.len() - k,
        {
            let bid = resources[k].body_id;
            if bid < 1 || bid as usize > bodies.len() {
                return Err(StoreError::ForeignKeyViolation);
            }
            k = k + 1;
        }
        assert(persist_accepted(*old(self), systems@, bodies@, resources@));

        // All constraints hold; stage every row, then make the whole graph
        // visible at once.
        let out = Galaxy { id: self.next_galaxy_id, name: galaxy.name.clone() };
        let sys_base = self.next_system_id;
        let body_base = self.next_body_id;

        let mut new_systems: Vec<StarSystem> = Vec::new();
        let mut i: usize = 0;
        while i < systems.len()
            invariant
                i <= systems@.len(),
                systems@.len() <= i32::MAX - sys_base,
                1 <= sys_base,
                new_systems@.len() == i,
                forall|t: int|
                    0 <= t < i ==> new_systems@[t] == system_row(
                        systems@[t],
                        (sys_base + t) as i32,
                        out.id,
                    ),
            decreases systems@.len() - i,
        {
            let row = make_system_row(&systems[i], sys_base + i as i32, out.id);
            new_systems.push(row);
            i = i + 1;
        }

        let mut new_bodies: Vec<CelestialBody> = Vec::new();
        let mut j2: usize = 0;
        while j2 < bodies.len()
            invariant
                j2 <= bodies@.len(),
                bodies@.len() <= i32::MAX - body_base,
                systems@.len() <= i32::MAX - sys_base,
                1 <= body_base,
                1 <= sys_base,
                forall|t: int|
                    0 <= t < bodies@.len() ==> 1 <= (#[trigger] bodies@[t]).system_id
                        <= systems@.len(),
                new_bodies@.len() == j2,
                forall|t: int|
                    0 <= t < j2 ==> new_bodies@[t] == body_row(
                        bodies@[t],
                        (body_base + t) as i32,
                        (sys_base + bodies@[t].system_id - 1) as i32,
                    ),
            decreases bodies@.len() - j2,
        {
            let graph_sid = bodies[j2].system_id;
            let row = make_body_row(&bodies[j2], body_base + j2 as i32, sys_base + (graph_sid - 1));
            new_bodies.push(row);
            j2 = j2 + 1;
        }

        let mut new_resources: Vec<CelestialBodyResource> = Vec::new();
        let mut k2: usize = 0;
        while k2 < resources.len()
            invariant
                k2 <= resources@.len(),
                bodies@.len() <= i32::MAX - body_base,
                1 <= body_base,
                forall|t: int|
                    0 <= t < resources@.len() ==> 1 <= (#[trigger] resources@[t]).body_id
                        <= bodies@.len(),
                new_resources@.len() == k2,
                forall|t: int|
                    0 <= t < k2 ==> new_resources@[t] == resource_row(
                        resources@[t],
                        (body_base + resources@[t].body_id - 1) as i32,
                    ),
            decreases resources@.len() - k2,
        {
            let graph_bid = resources[k2].body_id;
            let row = CelestialBodyResource {
                body_id: body_base + (graph_bid - 1),
                resource_id: resources[k2].resource_id,
                abundance: resources[k2].abundance,
            };
            new_resources.push(row);
            k2 = k2 + 1;
        }

        self.galaxies.push(Galaxy { id: out.id, name: out.name.clone() });
        self.next_galaxy_id = self.next_galaxy_id + 1;
        self.systems.append(&mut new_systems);
        self.next_system_id = sys_base + systems.len() as i32;
        self.bodies.append(&mut new_bodies);
        self.next_body_id = body_base + bodies.len() as i32;
        self.resources.append(&mut new_resources);

        Ok(out)
    }

    /// The singleton galaxy, if one has been persisted. Absence is not an
    /// error.
    pub fn get_galaxy(&self) -> (r: Option<Galaxy>)
        ensures
            match r {
                Some(g) => self.galaxies@.len() > 0 && g == self.galaxies@[0],
                None => self.galaxies@.len() == 0,
            },
    {
        if self.galaxies.len() > 0 {
            Some(self.galaxies[0].clone())
        } else {
            None
        }
    }

    /// Every stored star system row.
    pub fn get_star_systems(&self) -> (r: Vec<StarSystem>)
        ensures
            r@ == self.systems@,
    {
        let mut out: Vec<StarSystem> = Vec::new();
        let mut i: usize = 0;
        while i < self.systems.len()
            invariant
                i <= self.systems@.len(),
                out@ == self.systems@.subrange(0, i as int),
            decreases self.systems@.len() - i,
        {
            out.push(self.systems[i].clone());
            i = i + 1;
            proof {
                assert(out@ =~= self.systems@.subrange(0, i as int));
            }
        }
        proof {
            assert(self.systems@.subrange(0, self.systems@.len() as int) =~= self.systems@);
        }
        out
    }

    /// Every stored body row of the system with id `system_id`, in storage
    /// order. A system without bodies — including an id that no stored
    /// system carries — yields an empty sequence, not an error.
    pub fn get_celestial_bodies(&self, system_id: i32) -> (r: Vec<CelestialBody>)
        ensures
            r@ == bodies_of_system(self.bodies@, system_id as int),
    {
        let mut out: Vec<CelestialBody> = Vec::new();
        let mut i: usize = 0;
        while i < self.bodies.len()
            invariant
                i <= self.bodies@.len(),
                out@ == bodies_of_system(self.bodies@.subrange(0, i as int), system_id as int),
            decreases self.bodies@.len() - i,
        {
            let ghost pre = self.bodies@.subrange(0, i as int);
            if self.bodies[i].system_id == system_id {
                out.push(self.bodies[i].clone());
            }
            proof {
                lemma_bodies_of_system_push(pre, self.bodies@[i as int], system_id as int);
                assert(self.bodies@.subrange(0, i as int + 1) =~= pre.push(
                    self.bodies@[i as int],
                ));
            }
            i = i + 1;
        }
        proof {
            assert(self.bodies@.subrange(0, self.bodies@.len() as int) =~= self.bodies@);
        }
        out
    }
}

} // verus!
