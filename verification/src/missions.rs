//! The mission system keyed by symbolic ids.
//!
//! [`MissionSystem`] stores missions under caller-chosen symbolic ids and
//! ships with two built-in missions.  Completion is checked against a
//! snapshot of the player's resources and discovered stars supplied by the
//! caller (the ledger and discovery subsystems are external
//! collaborators here): every required star must have been discovered and
//! every resource threshold met.  The `completed` flag is a one-way latch;
//! a retried completion reports `AlreadyCompleted` and changes nothing.

use crate::mission::ProgressOutcome;
use std::collections::HashMap;
use vstd::prelude::*;

verus! {

/// Symbolic id of the built-in first mission.
pub const FIRST_STEPS: u64 = 1;

/// Symbolic id of the built-in resource-collection mission.
pub const RESOURCE_COLLECTOR: u64 = 2;

/// Symbolic id of the energy resource.
pub const ENERGY: u64 = 1;

/// Symbolic id of the iron resource.
pub const IRON: u64 = 2;

/// Symbolic id of the water resource.
pub const WATER: u64 = 3;

/// One entry of a resource snapshot: how much of one resource a player
/// holds.
#[derive(Clone, Copy, Debug, PartialEq, Eq, Structural)]
pub struct ResourceAmount {
    pub resource: u64,
    pub amount: i128,
}

/// A mission definition; `completed` is a one-way latch, everything else
/// is immutable after creation.
pub struct Mission {
    pub id: u64,
    pub name: String,
    pub description: String,
    pub reward_resource: u64,
    pub reward_amount: i128,
    pub required_stars: Vec<u64>,
    pub required_resources: Vec<ResourceAmount>,
    pub completed: bool,
}

/// Whether some stored mission carries this id.
pub open spec fn has_mission_id(s: Seq<Mission>, id: u64) -> bool {
    exists|i: int| 0 <= i < s.len() && (#[trigger] s[i]).id == id
}

/// The slot of the mission with this id (unique under [`MissionSystem::wf`]).
pub open spec fn mission_slot(s: Seq<Mission>, id: u64) -> int {
    choose|i: int| 0 <= i < s.len() && (#[trigger] s[i]).id == id
}

/// The stored mission with this id.
pub open spec fn mission_at(s: Seq<Mission>, id: u64) -> Mission
    recommends
        has_mission_id(s, id),
{
    s[mission_slot(s, id)]
}

/// The mission table after storing `m`: an existing record with the same
/// id is overwritten in place, otherwise `m` is appended.
pub open spec fn upserted(s: Seq<Mission>, m: Mission) -> Seq<Mission> {
    if has_mission_id(s, m.id) {
        s.update(mission_slot(s, m.id), m)
    } else {
        s.push(m)
    }
}

/// First-match lookup in a resource snapshot; 0 for a resource that does
/// not appear.
pub open spec fn amount_of(snapshot: Seq<ResourceAmount>, resource: u64) -> i128
    decreases snapshot.len(),
{
    if snapshot.len() == 0 {
        0
    } else if snapshot[0].resource == resource {
        snapshot[0].amount
    } else {
        amount_of(snapshot.drop_first(), resource)
    }
}

/// Whether the snapshot meets every requirement of `m`: each required
/// star discovered, each resource threshold covered.
pub open spec fn meets_requirements(
    m: Mission,
    resources: Seq<ResourceAmount>,
    stars: Seq<u64>,
) -> bool {
    &&& forall|i: int|
        0 <= i < m.required_stars@.len() ==> stars.contains(#[trigger] m.required_stars@[i])
    &&& forall|i: int|
        0 <= i < m.required_resources@.len() ==> amount_of(
            resources,
            (#[trigger] m.required_resources@[i]).resource,
        ) >= m.required_resources@[i].amount
}

/// The fields of the built-in first mission: a free reward of 100 energy,
/// no requirements.
pub open spec fn is_first_steps(m: Mission) -> bool {
    &&& m.id == FIRST_STEPS
    &&& m.name@ == "First Steps"@
    &&& m.description@ == "Discover your first star system"@
    &&& m.reward_resource == ENERGY
    &&& m.reward_amount == 100
    &&& m.required_stars@.len() == 0
    &&& m.required_resources@.len() == 0
    &&& !m.completed
}

/// The fields of the built-in collection mission: 500 iron for holding
/// 1000 water.
pub open spec fn is_resource_collector(m: Mission) -> bool {
    &&& m.id == RESOURCE_COLLECTOR
    &&& m.name@ == "Resource Collector"@
    &&& m.description@ == "Collect 1000 units of resources"@
    &&& m.reward_resource == IRON
    &&& m.reward_amount == 500
    &&& m.required_stars@.len() == 0
    &&& m.required_resources@ =~= seq![ResourceAmount { resource: WATER, amount: 1000 }]
    &&& !m.completed
}

/// Returns whether `value` occurs in `list`.
fn contains_id(list: &Vec<u64>, value: u64) -> (found: bool)
    ensures
        found == list@.contains(value),
{
    let mut i: usize = 0;
    while i < list.len()
        invariant
            i <= list.len(),
            forall|j: int| 0 <= j < i ==> list@[j] != value,
        decreases list.len() - i,
    {
        if list[i] == value {
            return true;
        }
        i = i + 1;
    }
    false
}

/// First-match lookup in a resource snapshot, as [`amount_of`] states.
fn lookup_amount(snapshot: &Vec<ResourceAmount>, resource: u64) -> (amount: i128)
    ensures
        amount == amount_of(snapshot@, resource),
{
    let mut i: usize = 0;
    proof {
        assert(snapshot@.skip(0) =~= snapshot@);
    }
    while i < snapshot.len()
        invariant
            i <= snapshot.len(),
            amount_of(snapshot@, resource) == amount_of(snapshot@.skip(i as int), resource),
        decreases snapshot.len() - i,
    {
        proof {
            assert(snapshot@.skip(i as int)[0] == snapshot@[i as int]);
            assert(snapshot@.skip(i as int).drop_first() =~= snapshot@.skip(i + 1));
        }
        if snapshot[i].resource == resource {
            return snapshot[i].amount;
        }
        i = i + 1;
    }
    proof {
        assert(snapshot@.skip(snapshot@.len() as int).len() == 0);
    }
    0
}

/// Mission definitions keyed by symbolic id, with per-player completion
/// records.
pub struct MissionSystem {
    /// The stored mission records, one per id.
    pub missions: Vec<Mission>,
    /// Every id ever passed to mission creation, in creation order
    /// (re-creating an id records it again, as a creation log).
    pub mission_list: Vec<u64>,
    /// The ids of the missions each player has completed, in completion
    /// order.
    pub player_missions: HashMap<u64, Vec<u64>>,
}

impl MissionSystem {
    /// The missions `player` has completed, in completion order.
    pub open spec fn missions_of(self, player: u64) -> Seq<u64> {
        if self.player_missions@.contains_key(player) {
            self.player_missions@[player]@
        } else {
            Seq::<u64>::empty()
        }
    }

    /// Stored mission ids are unique.
    pub open spec fn wf(self) -> bool {
        forall|i: int, j: int|
            0 <= i < self.missions@.len() && 0 <= j < self.missions@.len() && i != j ==> (
            #[trigger] self.missions@[i]).id != (#[trigger] self.missions@[j]).id
    }

    /// An empty mission system.
    pub fn new() -> (system: Self)
        ensures
            system.wf(),
            system.missions@ =~= Seq::<Mission>::empty(),
            system.mission_list@ =~= Seq::<u64>::empty(),
            forall|p: u64| #[trigger] system.missions_of(p) == Seq::<u64>::empty(),
    {
        MissionSystem { missions: Vec::new(), mission_list: Vec::new(), player_missions: HashMap::new() }
    }

    /// Under unique ids, any slot holding `id` is the slot of `id`.
    proof fn lemma_slot_unique(self, i: int, id: u64)
        requires
            self.wf(),
            0 <= i < self.missions@.len(),
            self.missions@[i].id == id,
        ensures
            has_mission_id(self.missions@, id),
            mission_slot(self.missions@, id) == i,
            mission_at(self.missions@, id) == self.missions@[i],
    {
        assert(has_mission_id(self.missions@, id));
        let j = mission_slot(self.missions@, id);
        assert(0 <= j < self.missions@.len() && self.missions@[j].id == id);
    }

    /// Finds the slot of the mission with this id, scanning in order.
    fn find_slot(&self, id: u64) -> (slot: Option<usize>)
        ensures
            match slot {
                Some(i) => i < self.missions@.len() && self.missions@[i as int].id == id,
                None => !has_mission_id(self.missions@, id),
            },
    {
        let mut i: usize = 0;
        while i < self.missions.len()
            invariant
                i <= self.missions.len(),
                forall|j: int| 0 <= j < i ==> (#[trigger] self.missions@[j]).id != id,
            decreases self.missions.len() - i,
        {
            if self.missions[i].id == id {
                return Some(i);
            }
            i = i + 1;
        }
        None
    }

    /// Records one completed mission id under a player.
    fn append_player_mission(&mut self, player: u64, id: u64)
        ensures
            final(self).missions_of(player) == old(self).missions_of(player).push(id),
            forall|p: u64|
                p != player ==> #[trigger] final(self).missions_of(p) == old(self).missions_of(p),
            final(self).missions == old(self).missions,
            final(self).mission_list == old(self).mission_list,
    {
        let ghost pre = *self;
        let mut ids: Vec<u64> = match self.player_missions.remove(&player) {
            Some(v) => v,
            None => Vec::new(),
        };
        proof {
            assert(ids@ =~= pre.missions_of(player));
        }
        ids.push(id);
        self.player_missions.insert(player, ids);
    }

    /// Stores a mission under `id`, not yet completed.  An existing record
    /// with the same id is overwritten (its latch resets); either way the
    /// id is appended to the creation log.
    pub fn create_mission(
        &mut self,
        id: u64,
        name: String,
        description: String,
        reward_resource: u64,
        reward_amount: i128,
        required_stars: Vec<u64>,
        required_resources: Vec<ResourceAmount>,
    )
        requires
            old(self).wf(),
        ensures
            final(self).wf(),
            final(self).missions@ == upserted(
                old(self).missions@,
                (Mission {
                    id,
                    name,
                    description,
                    reward_resource,
                    reward_amount,
                    required_stars,
                    required_resources,
                    completed: false,
                }),
            ),
            final(self).mission_list@ == old(self).mission_list@.push(id),
            final(self).player_missions == old(self).player_missions,
    {
        let mission = Mission {
            id,
            name,
            description,
            reward_resource,
            reward_amount,
            required_stars,
            required_resources,
            completed: false,
        };
        match self.find_slot(id) {
            Some(i) => {
                proof {
                    self.lemma_slot_unique(i as int, id);
                }
                let slot = &mut self.missions[i];
                *slot = mission;
                proof {
                    assert forall|a: int, b: int|
                        0 <= a < self.missions@.len() && 0 <= b < self.missions@.len() && a
                            != b implies (#[trigger] self.missions@[a]).id != (
                    #[trigger] self.missions@[b]).id by {
                        assert(old(self).missions@[a].id != old(self).missions@[b].id);
                    }
                }
            },
            None => {
                self.missions.push(mission);
                proof {
                    assert forall|a: int, b: int|
                        0 <= a < self.missions@.len() && 0 <= b < self.missions@.len() && a
                            != b implies (#[trigger] self.missions@[a]).id != (
                    #[trigger] self.missions@[b]).id by {
                        if a < old(self).missions@.len() && b < old(self).missions@.len() {
                            assert(old(self).missions@[a].id != old(self).missions@[b].id);
                        } else {
                            assert(a < old(self).missions@.len() ==> old(self).missions@[a].id
                                != id);
                            assert(b < old(self).missions@.len() ==> old(self).missions@[b].id
                                != id);
                        }
                    }
                }
            },
        }
        self.mission_list.push(id);
    }

    /// Creates the two built-in missions: `FIRST_STEPS` (a free reward of
    /// 100 energy) and `RESOURCE_COLLECTOR` (500 iron for holding 1000
    /// water).
    pub fn initialize_missions(&mut self)
        requires
            old(self).wf(),
        ensures
            final(self).wf(),
            exists|m1: Mission, m2: Mission|
                is_first_steps(m1) && is_resource_collector(m2) && final(self).missions@
                    == upserted(upserted(old(self).missions@, m1), m2),
            final(self).mission_list@ == old(self).mission_list@.push(FIRST_STEPS).push(
                RESOURCE_COLLECTOR,
            ),
            final(self).player_missions == old(self).player_missions,
    {
        let first_name = "First Steps".to_owned();
        let first_description = "Discover your first star system".to_owned();
        let first_stars: Vec<u64> = Vec::new();
        let first_resources: Vec<ResourceAmount> = Vec::new();
        let ghost m1 = Mission {
            id: FIRST_STEPS,
            name: first_name,
            description: first_description,
            reward_resource: ENERGY,
            reward_amount: 100,
            required_stars: first_stars,
            required_resources: first_resources,
            completed: false,
        };
        self.create_mission(
            FIRST_STEPS,
            first_name,
            first_description,
            ENERGY,
            100,
            first_stars,
            first_resources,
        );
        let collector_name = "Resource Collector".to_owned();
        let collector_description = "Collect 1000 units of resources".to_owned();
        let collector_stars: Vec<u64> = Vec::new();
        let mut collector_requirements: Vec<ResourceAmount> = Vec::new();
        collector_requirements.push(ResourceAmount { resource: WATER, amount: 1000 });
        let ghost m2 = Mission {
            id: RESOURCE_COLLECTOR,
            name: collector_name,
            description: collector_description,
            reward_resource: IRON,
            reward_amount: 500,
            required_stars: collector_stars,
            required_resources: collector_requirements,
            completed: false,
        };
        self.create_mission(
            RESOURCE_COLLECTOR,
            collector_name,
            collector_description,
            IRON,
            500,
            collector_stars,
            collector_requirements,
        );
        proof {
            assert(is_first_steps(m1));
            assert(is_resource_collector(m2));
            assert(self.missions@ == upserted(upserted(old(self).missions@, m1), m2));
        }
    }

    /// Completes a mission for `player` against a snapshot of the player's
    /// resources and discovered stars: verifies every required star and
    /// resource threshold, then flips the one-way latch and records the id
    /// under the player.  A retried call cleanly reports
    /// `AlreadyCompleted` without re-applying any effect.
    pub fn check_mission_completion(
        &mut self,
        player: u64,
        mission_id: u64,
        player_resources: &Vec<ResourceAmount>,
        discovered_stars: &Vec<u64>,
    ) -> (outcome: ProgressOutcome)
        requires
            old(self).wf(),
        ensures
            final(self).wf(),
            outcome == if !has_mission_id(old(self).missions@, mission_id) {
                ProgressOutcome::NotFound
            } else if mission_at(old(self).missions@, mission_id).completed {
                ProgressOutcome::AlreadyCompleted
            } else if !meets_requirements(
                mission_at(old(self).missions@, mission_id),
                player_resources@,
                discovered_stars@,
            ) {
                ProgressOutcome::RequirementsNotMet
            } else {
                ProgressOutcome::Completed
            },
            outcome != ProgressOutcome::Completed ==> *final(self) == *old(self),
            outcome == ProgressOutcome::Completed ==> {
                &&& final(self).missions@ == old(self).missions@.update(
                    mission_slot(old(self).missions@, mission_id),
                    (Mission { completed: true, ..mission_at(old(self).missions@, mission_id) }),
                )
                &&& final(self).mission_list == old(self).mission_list
                &&& final(self).missions_of(player) == old(self).missions_of(player).push(
                    mission_id,
                )
                &&& forall|p: u64|
                    p != player ==> #[trigger] final(self).missions_of(p) == old(self).missions_of(
                        p,
                    )
            },
    {
        let slot = match self.find_slot(mission_id) {
            Some(i) => i,
            None => {
                return ProgressOutcome::NotFound;
            },
        };
        proof {
            self.lemma_slot_unique(slot as int, mission_id);
        }
        if self.missions[slot].completed {
            return ProgressOutcome::AlreadyCompleted;
        }
        let ghost stored = mission_at(old(self).missions@, mission_id);
        let star_count = self.missions[slot].required_stars.len();
        let mut i: usize = 0;
        while i < star_count
            invariant
                *self == *old(self),
                old(self).wf(),
                slot < self.missions@.len(),
                self.missions@[slot as int].id == mission_id,
                mission_slot(old(self).missions@, mission_id) == slot,
                stored == self.missions@[slot as int],
                !stored.completed,
                star_count == stored.required_stars@.len(),
                i <= star_count,
                forall|j: int|
                    0 <= j < i ==> discovered_stars@.contains(
                        #[trigger] stored.required_stars@[j],
                    ),
            decreases star_count - i,
        {
            let star = self.missions[slot].required_stars[i];
            if !contains_id(discovered_stars, star) {
                proof {
                    assert(stored.required_stars@[i as int] == star);
                }
                return ProgressOutcome::RequirementsNotMet;
            }
            i = i + 1;
        }
        let requirement_count = self.missions[slot].required_resources.len();
        let mut k: usize = 0;
        while k < requirement_count
            invariant
                *self == *old(self),
                old(self).wf(),
                slot < self.missions@.len(),
                self.missions@[slot as int].id == mission_id,
                mission_slot(old(self).missions@, mission_id) == slot,
                stored == self.missions@[slot as int],
                !stored.completed,
                forall|j: int|
                    0 <= j < stored.required_stars@.len() ==> discovered_stars@.contains(
                        #[trigger] stored.required_stars@[j],
                    ),
                requirement_count == stored.required_resources@.len(),
                k <= requirement_count,
                forall|j: int|
                    0 <= j < k ==> amount_of(
                        player_resources@,
                        (#[trigger] stored.required_resources@[j]).resource,
                    ) >= stored.required_resources@[j].amount,
            decreases requirement_count - k,
        {
            let requirement: ResourceAmount = self.missions[slot].required_resources[k];
            let held = lookup_amount(player_resources, requirement.resource);
            if held < requirement.amount {
                proof {
                    assert(stored.required_resources@[k as int] == requirement);
                }
                return ProgressOutcome::RequirementsNotMet;
            }
            k = k + 1;
        }
        let slot_ref = &mut self.missions[slot];
        slot_ref.completed = true;
        proof {
            assert forall|a: int, b: int|
                0 <= a < self.missions@.len() && 0 <= b < self.missions@.len() && a != b implies (
            #[trigger] self.missions@[a]).id != (#[trigger] self.missions@[b]).id by {
                assert(old(self).missions@[a].id != old(self).missions@[b].id);
            }
        }
        self.append_player_mission(player, mission_id);
        ProgressOutcome::Completed
    }

    /// The mission stored under this id, or `None` for an id never used.
    pub fn get_mission_details(&self, mission_id: u64) -> (result: Option<&Mission>)
        requires
            self.wf(),
        ensures
            match result {
                Some(m) => has_mission_id(self.missions@, mission_id) && *m == mission_at(
                    self.missions@,
                    mission_id,
                ),
                None => !has_mission_id(self.missions@, mission_id),
            },
    {
        match self.find_slot(mission_id) {
            Some(i) => {
                proof {
                    self.lemma_slot_unique(i as int, mission_id);
                }
                Some(&self.missions[i])
            },
            None => None,
        }
    }

    /// The ids of the missions `player` has completed, in completion
    /// order.
    pub fn get_player_missions(&self, player: u64) -> (ids: Vec<u64>)
        ensures
            ids@ == self.missions_of(player),
    {
        match self.player_missions.get(&player) {
            Some(stored) => {
                let mut out: Vec<u64> = Vec::new();
                let mut i: usize = 0;
                while i < stored.len()
                    invariant
                        i <= stored.len(),
                        out@ == stored@.take(i as int),
                    decreases stored.len() - i,
                {
                    out.push(stored[i]);
                    proof {
                        assert(stored@.take(i + 1) =~= stored@.take(i as int).push(
                            stored@[i as int],
                        ));
                    }
                    i = i + 1;
                }
                proof {
                    assert(stored@.take(stored@.len() as int) =~= stored@);
                }
                out
            },
            None => Vec::new(),
        }
    }

    /// The creation log: every id ever passed to mission creation, in
    /// order.
    pub fn get_all_missions(&self) -> (ids: Vec<u64>)
        ensures
            ids@ == self.mission_list@,
    {
        let mut out: Vec<u64> = Vec::new();
        let mut i: usize = 0;
        while i < self.mission_list.len()
            invariant
                i <= self.mission_list.len(),
                out@ == self.mission_list@.take(i as int),
            decreases self.mission_list.len() - i,
        {
            out.push(self.mission_list[i]);
            proof {
                assert(self.mission_list@.take(i + 1) =~= self.mission_list@.take(i as int).push(
                    self.mission_list@[i as int],
                ));
            }
            i = i + 1;
        }
        proof {
            assert(self.mission_list@.take(self.mission_list@.len() as int) =~= self.mission_list@);
        }
        out
    }
}

} // verus!
