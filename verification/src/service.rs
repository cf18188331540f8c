use vstd::prelude::*;

use crate::generator::generate_galaxy;
use crate::models::{
    bodies_of_system, galaxy_graph_wf, CelestialBody, Galaxy, StarSystem,
};
use crate::store::{persist_accepted, Store, StoreError};

verus! {

/// The display name given to a freshly generated galaxy.
pub open spec fn default_galaxy_name() -> Seq<char> {
    "Proxima Coloniae Galaxy"@
}

/// Room in the store's id sequences for one full galaxy graph: one galaxy
/// row, ten system rows and at most seventy body rows.
pub open spec fn init_room(s: Store) -> bool {
    &&& s.next_galaxy_id < i32::MAX
    &&& 10 <= i32::MAX - s.next_system_id
    &&& 70 <= i32::MAX - s.next_body_id
}

/// What initialize-or-load guarantees, relating the store before (`pre`)
/// and after (`post`) to the outcome `r`:
/// - a store that already holds a galaxy is served as it is: the first
///   galaxy row comes back and nothing changes;
/// - a failed attempt leaves the store exactly as it was;
/// - a successful outcome is the first galaxy row of the store it leaves;
/// - a store without a galaxy and with room in its id sequences is always
///   initialized;
/// - initializing a store without a galaxy persists exactly one galaxy row
///   under the default name, ten system rows, thirty to seventy body rows
///   and one to four deposit rows per body;
/// - on a fresh store the rows left behind are a consistent galaxy graph.
pub open spec fn initialize_spec(pre: Store, post: Store, r: Result<Galaxy, StoreError>) -> bool {
    &&& pre.galaxies@.len() > 0 ==> r == Result::<Galaxy, StoreError>::Ok(pre.galaxies@[0])
        && post == pre
    &&& r is Err ==> post == pre
    &&& r is Ok ==> post.galaxies@.len() >= 1 && post.galaxies@[0] == r->Ok_0
    &&& (pre.galaxies@.len() == 0 && init_room(pre)) ==> r is Ok
    &&& (pre.galaxies@.len() == 0 && r is Ok) ==> {
        &&& r->Ok_0.id == pre.next_galaxy_id
        &&& r->Ok_0.name@ == default_galaxy_name()
        &&& post.galaxies@ == pre.galaxies@.push(r->Ok_0)
        &&& post.systems@.len() == pre.systems@.len() + 10
        &&& pre.bodies@.len() + 30 <= post.bodies@.len() <= pre.bodies@.len() + 70
        &&& post.bodies@.len() - pre.bodies@.len() <= post.resources@.len()
            - pre.resources@.len() <= 4 * (post.bodies@.len() - pre.bodies@.len())
    }
    &&& (pre.is_fresh() && r is Ok) ==> galaxy_graph_wf(
        r->Ok_0,
        post.systems@,
        post.bodies@,
        post.resources@,
    )
}

/// The galaxy façade: holds the store and serves initialize-or-load and
/// the read queries. It has two states — uninitialized and ready — and
/// moves to ready exactly once, on the first `initialize_galaxy`.
pub struct GalaxyService {
    pub store: Store,
}

impl GalaxyService {
    /// The service is ready once the store holds the galaxy; before that it
    /// is uninitialized. `initialize_galaxy` moves it to ready exactly
    /// once, and nothing moves it back.
    pub open spec fn ready(self) -> bool {
        self.store.galaxies@.len() > 0
    }

    pub fn new(store: Store) -> (s: Self)
        ensures
            s.store == store,
    {
        GalaxyService { store }
    }

    /// Initialize-or-load: serve the galaxy that the store already holds,
    /// or — only if it holds none — assemble a fresh one under the default
    /// name and persist it in a single transaction. See `initialize_spec`
    /// for the full guarantee.
    pub fn initialize_galaxy(&mut self) -> (r: Result<Galaxy, StoreError>)
        requires
            old(self).store.wf(),
        ensures
            final(self).store.wf(),
            initialize_spec(old(self).store, final(self).store, r),
            r is Ok ==> final(self).ready(),
    {
        match self.store.get_galaxy() {
            Some(g) => Ok(g),
            None => {
                let name = "Proxima Coloniae Galaxy".to_owned();
                self.generate_and_persist_galaxy(name)
            },
        }
    }

    /// Assemble one galaxy graph under `name` and persist it atomically.
    /// The write is accepted exactly when the store holds no galaxy yet and
    /// its id sequences have room; a refused write leaves the store — and
    /// so the service — exactly as it was.
    pub fn generate_and_persist_galaxy(&mut self, name: String) -> (r: Result<Galaxy, StoreError>)
        requires
            old(self).store.wf(),
        ensures
            final(self).store.wf(),
            r is Err ==> *final(self) == *old(self),
            old(self).store.galaxies@.len() > 0 ==> r is Err,
            (old(self).store.galaxies@.len() == 0 && init_room(old(self).store)) ==> r is Ok,
            r is Ok ==> {
                &&& old(self).store.galaxies@.len() == 0
                &&& r->Ok_0.id == old(self).store.next_galaxy_id
                &&& r->Ok_0.name == name
                &&& final(self).store.galaxies@ == old(self).store.galaxies@.push(r->Ok_0)
                &&& final(self).store.systems@.len() == old(self).store.systems@.len() + 10
                &&& old(self).store.bodies@.len() + 30 <= final(self).store.bodies@.len()
                    <= old(self).store.bodies@.len() + 70
                &&& final(self).store.bodies@.len() - old(self).store.bodies@.len()
                    <= final(self).store.resources@.len() - old(self).store.resources@.len() <= 4
                    * (final(self).store.bodies@.len() - old(self).store.bodies@.len())
            },
            (old(self).store.is_fresh() && r is Ok) ==> galaxy_graph_wf(
                r->Ok_0,
                final(self).store.systems@,
                final(self).store.bodies@,
                final(self).store.resources@,
            ),
    {
        let (galaxy, systems, bodies, resources) = generate_galaxy(name);
        let r = self.store.persist_graph(&galaxy, &systems, &bodies, &resources);
        proof {
            let pre = old(self).store;
            if pre.galaxies@.len() == 0 && init_room(pre) {
                assert(persist_accepted(pre, systems@, bodies@, resources@));
            }
            if pre.is_fresh() && r is Ok {
                let out = r->Ok_0;
                assert forall|i: int| 0 <= i < systems@.len() implies self.store.systems@[i]
                    == systems@[i] by {
                    assert(self.store.systems@[i] == crate::store::system_row(
                        systems@[i],
                        (1 + i) as i32,
                        out.id,
                    ));
                }
                assert(self.store.systems@ =~= systems@);
                assert forall|j: int| 0 <= j < bodies@.len() implies self.store.bodies@[j]
                    == bodies@[j] by {
                    assert(self.store.bodies@[j] == crate::store::body_row(
                        bodies@[j],
                        (1 + j) as i32,
                        (1 + bodies@[j].system_id - 1) as i32,
                    ));
                }
                assert(self.store.bodies@ =~= bodies@);
                assert forall|k: int| 0 <= k < resources@.len() implies self.store.resources@[k]
                    == resources@[k] by {
                    assert(self.store.resources@[k] == crate::store::resource_row(
                        resources@[k],
                        (1 + resources@[k].body_id - 1) as i32,
                    ));
                }
                assert(self.store.resources@ =~= resources@);
                assert(galaxy_graph_wf(
                    out,
                    self.store.systems@,
                    self.store.bodies@,
                    self.store.resources@,
                ));
            }
        }
        r
    }

    /// The singleton galaxy, if one has been persisted.
    pub fn get_galaxy(&self) -> (r: Option<Galaxy>)
        ensures
            match r {
                Some(g) => self.store.galaxies@.len() > 0 && g == self.store.galaxies@[0],
                None => self.store.galaxies@.len() == 0,
            },
    {
        self.store.get_galaxy()
    }

    /// Every stored star system.
    pub fn get_star_systems(&self) -> (r: Vec<StarSystem>)
        ensures
            r@ == self.store.systems@,
    {
        self.store.get_star_systems()
    }

    /// Every stored body of the system with id `system_id`. A system
    /// without bodies — or an unknown id — yields an empty sequence, not
    /// an error.
    pub fn get_celestial_bodies(&self, system_id: i32) -> (r: Vec<CelestialBody>)
        ensures
            r@ == bodies_of_system(self.store.bodies@, system_id as int),
    {
        self.store.get_celestial_bodies(system_id)
    }
}

/// Initialize-or-load is idempotent: a second initialization against the
/// store that a successful first one left behind returns the same galaxy
/// identity and changes nothing, so no rows are ever duplicated.
pub proof fn lemma_initialize_idempotent(
    s0: Store,
    s1: Store,
    r1: Result<Galaxy, StoreError>,
    s2: Store,
    r2: Result<Galaxy, StoreError>,
)
    requires
        initialize_spec(s0, s1, r1),
        initialize_spec(s1, s2, r2),
        r1 is Ok,
    ensures
        r2 == r1,
        s2 == s1,
{
}

} // verus!
