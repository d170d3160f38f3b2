//! The star catalogue.
//!
//! [`StarSystem`] stores stars under symbolic names, with a discovery flag
//! and the resources found at each star.  The catalogue ships with three
//! initial stars.  Discovery is a one-way latch per star; resource
//! deposits are recorded per (star, resource) pair.

use crate::keys::{pack_pair, pair_key};
use std::collections::HashMap;
use vstd::prelude::*;

verus! {

/// Symbolic name of the first initial star.
pub const ALPHA_CENTAURI: u64 = 1;

/// Symbolic name of the second initial star.
pub const PROXIMA_CENTAURI: u64 = 2;

/// Symbolic name of the third initial star.
pub const BARNARDS_STAR: u64 = 3;

/// One catalogued star: its symbolic name, the resources found at it, its
/// distance, and whether it has been discovered.
pub struct Star {
    pub name: u64,
    pub resources: Vec<u64>,
    pub distance: i128,
    pub discovered: bool,
}

/// Expected failures of the star catalogue.
#[derive(Clone, Copy, Debug, PartialEq, Eq, Structural)]
pub enum StarError {
    NotFound,
    AlreadyDiscovered,
}

/// Whether some catalogued star carries this name.
pub open spec fn has_star_named(s: Seq<Star>, name: u64) -> bool {
    exists|i: int| 0 <= i < s.len() && (#[trigger] s[i]).name == name
}

/// The slot of the star with this name (unique under [`StarSystem::wf`]).
pub open spec fn star_slot(s: Seq<Star>, name: u64) -> int {
    choose|i: int| 0 <= i < s.len() && (#[trigger] s[i]).name == name
}

/// The catalogued star with this name.
pub open spec fn star_named(s: Seq<Star>, name: u64) -> Star
    recommends
        has_star_named(s, name),
{
    s[star_slot(s, name)]
}

/// The fields of a freshly created star.
pub open spec fn is_new_star(star: Star, name: u64, distance: i128) -> bool {
    &&& star.name == name
    &&& star.distance == distance
    &&& !star.discovered
    &&& star.resources@.len() == 0
}

/// The star catalogue.
pub struct StarSystem {
    /// The catalogued stars, one per name, in creation order.
    pub stars: Vec<Star>,
    /// The deposited amount of each (star, resource) pair, keyed by the
    /// packed pair.
    pub amounts: HashMap<u128, i128>,
}

impl StarSystem {
    /// The deposited amount of `resource` at `star`; 0 when nothing was
    /// recorded.
    pub open spec fn resource_amount(self, star: u64, resource: u64) -> i128 {
        if self.amounts@.contains_key(pair_key(star, resource)) {
            self.amounts@[pair_key(star, resource)]
        } else {
            0
        }
    }

    /// Catalogued star names are unique.
    pub open spec fn wf(self) -> bool {
        forall|i: int, j: int|
            0 <= i < self.stars@.len() && 0 <= j < self.stars@.len() && i != j ==> (
            #[trigger] self.stars@[i]).name != (#[trigger] self.stars@[j]).name
    }

    /// An empty catalogue.
    pub fn new() -> (catalogue: Self)
        ensures
            catalogue.wf(),
            catalogue.stars@ =~= Seq::<Star>::empty(),
            forall|s: u64, r: u64| #[trigger] catalogue.resource_amount(s, r) == 0,
    {
        StarSystem { stars: Vec::new(), amounts: HashMap::new() }
    }

    /// Under unique names, any slot holding `name` is the slot of `name`.
    proof fn lemma_star_slot_unique(self, i: int, name: u64)
        requires
            self.wf(),
            0 <= i < self.stars@.len(),
            self.stars@[i].name == name,
        ensures
            has_star_named(self.stars@, name),
            star_slot(self.stars@, name) == i,
            star_named(self.stars@, name) == self.stars@[i],
    {
        assert(has_star_named(self.stars@, name));
        let j = star_slot(self.stars@, name);
        assert(0 <= j < self.stars@.len() && self.stars@[j].name == name);
    }

    /// Finds the slot of the star with this name, scanning in order.
    fn find_star(&self, name: u64) -> (slot: Option<usize>)
        ensures
            match slot {
                Some(i) => i < self.stars@.len() && self.stars@[i as int].name == name,
                None => !has_star_named(self.stars@, name),
            },
    {
        let mut i: usize = 0;
        while i < self.stars.len()
            invariant
                i <= self.stars.len(),
                forall|j: int| 0 <= j < i ==> (#[trigger] self.stars@[j]).name != name,
            decreases self.stars.len() - i,
        {
            if self.stars[i].name == name {
                return Some(i);
            }
            i = i + 1;
        }
        None
    }

    /// Catalogues a new undiscovered star.  Returns `false` and changes
    /// nothing when a star with this name already exists.
    fn create_star(&mut self, name: u64, distance: i128) -> (created: bool)
        requires
            old(self).wf(),
        ensures
            final(self).wf(),
            created == !has_star_named(old(self).stars@, name),
            !created ==> *final(self) == *old(self),
            created ==> exists|st: Star|
                is_new_star(st, name, distance) && final(self).stars@ == old(self).stars@.push(st),
            final(self).amounts == old(self).amounts,
    {
        match self.find_star(name) {
            Some(_) => false,
            None => {
                let star = Star { name, resources: Vec::new(), distance, discovered: false };
                let ghost st = star;
                self.stars.push(star);
                proof {
                    assert(is_new_star(st, name, distance) && self.stars@ == old(self).stars@.push(st));
                    assert forall|a: int, b: int|
                        0 <= a < self.stars@.len() && 0 <= b < self.stars@.len() && a != b implies (
                    #[trigger] self.stars@[a]).name != (#[trigger] self.stars@[b]).name by {
                        if a < old(self).stars@.len() && b < old(self).stars@.len() {
                            assert(old(self).stars@[a].name != old(self).stars@[b].name);
                        } else {
                            assert(a < old(self).stars@.len() ==> old(self).stars@[a].name != name);
                            assert(b < old(self).stars@.len() ==> old(self).stars@[b].name != name);
                        }
                    }
                }
                true
            },
        }
    }

    /// Catalogues the three initial stars.  Existing catalogue entries are
    /// never touched; a name that is already present is skipped.
    pub fn initialize_system(&mut self)
        requires
            old(self).wf(),
        ensures
            final(self).wf(),
            final(self).amounts == old(self).amounts,
            has_star_named(final(self).stars@, ALPHA_CENTAURI),
            has_star_named(final(self).stars@, PROXIMA_CENTAURI),
            has_star_named(final(self).stars@, BARNARDS_STAR),
            forall|j: int|
                0 <= j < old(self).stars@.len() ==> #[trigger] final(self).stars@[j] == old(self).stars@[j],
            final(self).stars@.len() <= old(self).stars@.len() + 3,
            old(self).stars@.len() == 0 ==> {
                &&& final(self).stars@.len() == 3
                &&& is_new_star(final(self).stars@[0], ALPHA_CENTAURI, 0)
                &&& is_new_star(final(self).stars@[1], PROXIMA_CENTAURI, 4)
                &&& is_new_star(final(self).stars@[2], BARNARDS_STAR, 6)
            },
    {
        let ghost s0 = self.stars@;
        let created_alpha = self.create_star(ALPHA_CENTAURI, 0);
        let ghost s1 = self.stars@;
        let created_proxima = self.create_star(PROXIMA_CENTAURI, 4);
        let ghost s2 = self.stars@;
        let created_barnards = self.create_star(BARNARDS_STAR, 6);
        proof {
            assert forall|j: int| 0 <= j < s2.len() implies #[trigger] self.stars@[j] == s2[j] by {}
            assert forall|j: int| 0 <= j < s1.len() implies #[trigger] self.stars@[j] == s1[j] by {
                assert(s2[j] == s1[j]);
            }
            assert forall|j: int| 0 <= j < s0.len() implies #[trigger] self.stars@[j] == s0[j] by {
                assert(s1[j] == s0[j]);
            }
            if created_alpha {
                assert(self.stars@[s0.len() as int].name == ALPHA_CENTAURI);
            } else {
                let i = star_slot(s0, ALPHA_CENTAURI);
                assert(0 <= i < s0.len() && s0[i].name == ALPHA_CENTAURI);
                assert(self.stars@[i].name == ALPHA_CENTAURI);
            }
            if created_proxima {
                assert(self.stars@[s1.len() as int].name == PROXIMA_CENTAURI);
            } else {
                let i = star_slot(s1, PROXIMA_CENTAURI);
                assert(0 <= i < s1.len() && s1[i].name == PROXIMA_CENTAURI);
                assert(self.stars@[i].name == PROXIMA_CENTAURI);
            }
            if created_barnards {
                assert(self.stars@[s2.len() as int].name == BARNARDS_STAR);
            } else {
                let i = star_slot(s2, BARNARDS_STAR);
                assert(0 <= i < s2.len() && s2[i].name == BARNARDS_STAR);
                assert(self.stars@[i].name == BARNARDS_STAR);
            }
        }
    }

    /// Marks a catalogued star as discovered, once: a second discovery
    /// reports `AlreadyDiscovered` and changes nothing.  (Discovery is a
    /// property of the star itself; the discovering player is not
    /// recorded here.)
    pub fn discover_star(&mut self, _player: u64, star_name: u64) -> (result: Result<
        (),
        StarError,
    >)
        requires
            old(self).wf(),
        ensures
            final(self).wf(),
            result == if !has_star_named(old(self).stars@, star_name) {
                Result::<(), StarError>::Err(StarError::NotFound)
            } else if star_named(old(self).stars@, star_name).discovered {
                Result::<(), StarError>::Err(StarError::AlreadyDiscovered)
            } else {
                Result::<(), StarError>::Ok(())
            },
            result is Err ==> *final(self) == *old(self),
            result is Ok ==> final(self).stars@ == old(self).stars@.update(
                star_slot(old(self).stars@, star_name),
                (Star { discovered: true, ..star_named(old(self).stars@, star_name) }),
            ),
            final(self).amounts == old(self).amounts,
    {
        let slot = match self.find_star(star_name) {
            Some(i) => i,
            None => {
                return Err(StarError::NotFound);
            },
        };
        proof {
            self.lemma_star_slot_unique(slot as int, star_name);
        }
        if self.stars[slot].discovered {
            return Err(StarError::AlreadyDiscovered);
        }
        let slot_ref = &mut self.stars[slot];
        slot_ref.discovered = true;
        proof {
            assert forall|a: int, b: int|
                0 <= a < self.stars@.len() && 0 <= b < self.stars@.len() && a != b implies (
            #[trigger] self.stars@[a]).name != (#[trigger] self.stars@[b]).name by {
                assert(old(self).stars@[a].name != old(self).stars@[b].name);
            }
        }
        Ok(())
    }

    /// Records that `amount` of `resource_name` lies at a catalogued star:
    /// the resource is appended to the star's list and the deposited
    /// amount is written for the (star, resource) pair.
    pub fn add_resource(&mut self, star_name: u64, resource_name: u64, amount: i128) -> (result:
        Result<(), StarError>)
        requires
            old(self).wf(),
        ensures
            final(self).wf(),
            result == if has_star_named(old(self).stars@, star_name) {
                Result::<(), StarError>::Ok(())
            } else {
                Result::<(), StarError>::Err(StarError::NotFound)
            },
            result is Err ==> *final(self) == *old(self),
            result is Ok ==> exists|st: Star|
                {
                    &&& st.name == star_named(old(self).stars@, star_name).name
                    &&& st.distance == star_named(old(self).stars@, star_name).distance
                    &&& st.discovered == star_named(old(self).stars@, star_name).discovered
                    &&& st.resources@ == star_named(old(self).stars@, star_name).resources@.push(
                        resource_name,
                    )
                    &&& final(self).stars@ == old(self).stars@.update(
                        star_slot(old(self).stars@, star_name),
                        st,
                    )
                },
            result is Ok ==> final(self).amounts@ == old(self).amounts@.insert(
                pair_key(star_name, resource_name),
                amount,
            ),
    {
        let slot = match self.find_star(star_name) {
            Some(i) => i,
            None => {
                return Err(StarError::NotFound);
            },
        };
        proof {
            self.lemma_star_slot_unique(slot as int, star_name);
        }
        let slot_ref = &mut self.stars[slot];
        slot_ref.resources.push(resource_name);
        let ghost st = self.stars@[slot as int];
        let key = pack_pair(star_name, resource_name);
        self.amounts.insert(key, amount);
        proof {
            assert forall|a: int, b: int|
                0 <= a < self.stars@.len() && 0 <= b < self.stars@.len() && a != b implies (
            #[trigger] self.stars@[a]).name != (#[trigger] self.stars@[b]).name by {
                assert(old(self).stars@[a].name != old(self).stars@[b].name);
            }
        }
        Ok(())
    }

    /// The catalogued star with this name, or `None` for an unknown name.
    pub fn get_star_info(&self, star_name: u64) -> (result: Option<&Star>)
        requires
            self.wf(),
        ensures
            match result {
                Some(star) => has_star_named(self.stars@, star_name) && *star == star_named(
                    self.stars@,
                    star_name,
                ),
                None => !has_star_named(self.stars@, star_name),
            },
    {
        match self.find_star(star_name) {
            Some(i) => {
                proof {
                    self.lemma_star_slot_unique(i as int, star_name);
                }
                Some(&self.stars[i])
            },
            None => None,
        }
    }

    /// The deposited amount of `resource_name` at `star_name`; 0 when
    /// nothing was recorded.
    pub fn get_resource_amount(&self, star_name: u64, resource_name: u64) -> (amount: i128)
        ensures
            amount == self.resource_amount(star_name, resource_name),
    {
        let key = pack_pair(star_name, resource_name);
        match self.amounts.get(&key) {
            Some(v) => *v,
            None => 0,
        }
    }

    /// The names of all catalogued stars, in creation order.
    pub fn get_all_stars(&self) -> (names: Vec<u64>)
        ensures
            names@.len() == self.stars@.len(),
            forall|i: int|
                0 <= i < self.stars@.len() ==> names@[i] == (#[trigger] self.stars@[i]).name,
    {
        let mut out: Vec<u64> = Vec::new();
        let mut i: usize = 0;
        while i < self.stars.len()
            invariant
                i <= self.stars.len(),
                out@.len() == i,
                forall|j: int| 0 <= j < i ==> out@[j] == (#[trigger] self.stars@[j]).name,
            decreases self.stars.len() - i,
        {
            out.push(self.stars[i].name);
            i = i + 1;
        }
        out
    }
}

} // verus!
