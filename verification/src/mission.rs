//! Missions and achievements with one-shot completion.
//!
//! [`MissionContract`] stores mission and achievement definitions, created
//! once and immutable except for the `completed` latch.  Completing a
//! mission verifies its requirements (a star-discovery count supplied by
//! the discovery subsystem, and resource thresholds read from the ledger),
//! flips the latch, records the id under the player and credits the
//! configured reward through the ledger — exactly once: a second
//! completion attempt reports `AlreadyCompleted` and changes nothing.
//! Achievements mirror missions without the requirement gate.

use crate::economy::EconomyContract;
use std::collections::HashMap;
use vstd::prelude::*;

verus! {

/// The reward granted on completion.
#[derive(Clone, Copy, Debug, PartialEq, Eq, Structural)]
pub struct Reward {
    pub resource: u64,
    pub amount: u64,
}

/// One resource threshold a player must hold to complete a mission.
#[derive(Clone, Copy, Debug, PartialEq, Eq, Structural)]
pub struct ResourceRequirement {
    pub resource: u64,
    pub amount: u64,
}

/// What a mission demands: a number of discovered stars and a set of
/// resource thresholds.
pub struct Requirements {
    pub stars: u64,
    pub resources: Vec<ResourceRequirement>,
}

/// A mission definition; `completed` is a one-way latch.
pub struct Mission {
    pub id: u64,
    pub name: String,
    pub description: String,
    pub reward: Reward,
    pub requirements: Requirements,
    pub completed: bool,
}

/// An achievement definition; `completed` is a one-way latch.
pub struct Achievement {
    pub id: u64,
    pub name: String,
    pub description: String,
    pub reward: Reward,
    pub completed: bool,
}

/// The outcome of a completion attempt.  `AlreadyCompleted` is not an
/// error: it is the clean answer to a retried call.
#[derive(Clone, Copy, Debug, PartialEq, Eq, Structural)]
pub enum ProgressOutcome {
    Completed,
    AlreadyCompleted,
    NotFound,
    RequirementsNotMet,
}

/// Whether `player` meets the requirements of `m`: enough stars
/// discovered, and every resource threshold covered by the ledger balance.
pub open spec fn requirements_met(
    m: Mission,
    ledger: EconomyContract,
    player: u64,
    stars_discovered: u64,
) -> bool {
    &&& stars_discovered >= m.requirements.stars
    &&& forall|i: int|
        0 <= i < m.requirements.resources@.len() ==> ledger.balance(
            player,
            (#[trigger] m.requirements.resources@[i]).resource,
        ) >= m.requirements.resources@[i].amount
}

/// Mission and achievement definitions and per-player completion records.
pub struct MissionContract {
    /// Every mission ever defined; the mission with id `i` sits at slot
    /// `i - 1` and is never removed.
    pub missions: Vec<Mission>,
    /// Every achievement ever defined, laid out like `missions`.
    pub achievements: Vec<Achievement>,
    /// The ids of the missions each player has completed, in completion
    /// order.
    pub player_missions: HashMap<u64, Vec<u64>>,
    /// The ids of the achievements each player has completed, in
    /// completion order.
    pub player_achievements: HashMap<u64, Vec<u64>>,
}

impl MissionContract {
    /// Whether a mission with this id exists.
    pub open spec fn has_mission(self, id: u64) -> bool {
        1 <= id <= self.missions@.len()
    }

    /// The mission with id `id`.
    pub open spec fn mission(self, id: u64) -> Mission
        recommends
            self.has_mission(id),
    {
        self.missions@[id - 1]
    }

    /// Whether an achievement with this id exists.
    pub open spec fn has_achievement(self, id: u64) -> bool {
        1 <= id <= self.achievements@.len()
    }

    /// The achievement with id `id`.
    pub open spec fn achievement(self, id: u64) -> Achievement
        recommends
            self.has_achievement(id),
    {
        self.achievements@[id - 1]
    }

    /// The missions `player` has completed, in completion order.
    pub open spec fn missions_of(self, player: u64) -> Seq<u64> {
        if self.player_missions@.contains_key(player) {
            self.player_missions@[player]@
        } else {
            Seq::<u64>::empty()
        }
    }

    /// The achievements `player` has completed, in completion order.
    pub open spec fn achievements_of(self, player: u64) -> Seq<u64> {
        if self.player_achievements@.contains_key(player) {
            self.player_achievements@[player]@
        } else {
            Seq::<u64>::empty()
        }
    }

    /// Ids are dense and positive.
    pub open spec fn wf(self) -> bool {
        &&& self.missions@.len() + 1 <= u64::MAX
        &&& self.achievements@.len() + 1 <= u64::MAX
        &&& forall|i: int|
            0 <= i < self.missions@.len() ==> (#[trigger] self.missions@[i]).id == i + 1
        &&& forall|i: int|
            0 <= i < self.achievements@.len() ==> (#[trigger] self.achievements@[i]).id == i + 1
    }

    /// An empty tracker: no definitions, no completion records.
    pub fn new() -> (tracker: Self)
        ensures
            tracker.wf(),
            tracker.missions@ =~= Seq::<Mission>::empty(),
            tracker.achievements@ =~= Seq::<Achievement>::empty(),
            forall|p: u64| #[trigger] tracker.missions_of(p) == Seq::<u64>::empty(),
            forall|p: u64| #[trigger] tracker.achievements_of(p) == Seq::<u64>::empty(),
    {
        MissionContract {
            missions: Vec::new(),
            achievements: Vec::new(),
            player_missions: HashMap::new(),
            player_achievements: HashMap::new(),
        }
    }

    /// Records one completed mission id under a player.
    fn append_player_mission(&mut self, player: u64, id: u64)
        ensures
            final(self).missions_of(player) == old(self).missions_of(player).push(id),
            forall|p: u64|
                p != player ==> #[trigger] final(self).missions_of(p) == old(self).missions_of(p),
            final(self).missions == old(self).missions,
            final(self).achievements == old(self).achievements,
            final(self).player_achievements == old(self).player_achievements,
    {
        let ghost pre = *self;
        let mut ids: Vec<u64> = match self.player_missions.remove(&player) {
            Some(v) => v,
            None => Vec::new(),
        };
        proof {
            assert(ids@ =~= pre.missions_of(player));
        }
        ids.push(id);
        self.player_missions.insert(player, ids);
    }

    /// Records one completed achievement id under a player.
    fn append_player_achievement(&mut self, player: u64, id: u64)
        ensures
            final(self).achievements_of(player) == old(self).achievements_of(player).push(id),
            forall|p: u64|
                p != player ==> #[trigger] final(self).achievements_of(p) == old(self).achievements_of(p),
            final(self).missions == old(self).missions,
            final(self).achievements == old(self).achievements,
            final(self).player_missions == old(self).player_missions,
    {
        let ghost pre = *self;
        let mut ids: Vec<u64> = match self.player_achievements.remove(&player) {
            Some(v) => v,
            None => Vec::new(),
        };
        proof {
            assert(ids@ =~= pre.achievements_of(player));
        }
        ids.push(id);
        self.player_achievements.insert(player, ids);
    }

    /// Defines a new mission under the next monotonic id, not yet
    /// completed.
    pub fn create_mission(
        &mut self,
        name: String,
        description: String,
        reward: Reward,
        requirements: Requirements,
    ) -> (id: u64)
        requires
            old(self).wf(),
            old(self).missions@.len() + 2 <= u64::MAX,
        ensures
            final(self).wf(),
            id == old(self).missions@.len() + 1,
            final(self).missions@ == old(self).missions@.push(
                Mission { id, name, description, reward, requirements, completed: false },
            ),
            final(self).achievements == old(self).achievements,
            final(self).player_missions == old(self).player_missions,
            final(self).player_achievements == old(self).player_achievements,
    {
        let id: u64 = self.missions.len() as u64 + 1;
        let mission = Mission { id, name, description, reward, requirements, completed: false };
        self.missions.push(mission);
        id
    }

    /// The mission with this id, or `None` for an id never assigned.
    pub fn get_mission(&self, id: u64) -> (result: Option<&Mission>)
        ensures
            match result {
                Some(m) => self.has_mission(id) && *m == self.mission(id),
                None => !self.has_mission(id),
            },
    {
        if id >= 1 && id <= self.missions.len() as u64 {
            Some(&self.missions[(id - 1) as usize])
        } else {
            None
        }
    }

    /// The ids of the missions `player` has completed, in completion
    /// order.
    pub fn get_player_missions(&self, player: u64) -> (ids: Vec<u64>)
        ensures
            ids@ == self.missions_of(player),
    {
        match self.player_missions.get(&player) {
            Some(stored) => {
                let mut out: Vec<u64> = Vec::new();
                let mut i: usize = 0;
                while i < stored.len()
                    invariant
                        i <= stored.len(),
                        out@ == stored@.take(i as int),
                    decreases stored.len() - i,
                {
                    out.push(stored[i]);
                    proof {
                        assert(stored@.take(i + 1) =~= stored@.take(i as int).push(
                            stored@[i as int],
                        ));
                    }
                    i = i + 1;
                }
                proof {
                    assert(stored@.take(stored@.len() as int) =~= stored@);
                }
                out
            },
            None => Vec::new(),
        }
    }

    /// Completes a mission for `player`: verifies the star-discovery count
    /// and the resource thresholds, flips the one-way latch, records the
    /// id under the player and credits the reward — all or nothing, and at
    /// most once per mission.  A retried call cleanly reports
    /// `AlreadyCompleted` without re-applying any effect.
    ///
    /// `stars_discovered` is the player's discovery count, supplied by the
    /// external discovery subsystem.
    pub fn complete_mission(
        &mut self,
        ledger: &mut EconomyContract,
        player: u64,
        mission_id: u64,
        stars_discovered: u64,
    ) -> (outcome: ProgressOutcome)
        requires
            old(self).wf(),
            old(self).has_mission(mission_id) && !old(self).mission(mission_id).completed
                && requirements_met(
                old(self).mission(mission_id),
                *old(ledger),
                player,
                stars_discovered,
            ) ==> old(ledger).balance(player, old(self).mission(mission_id).reward.resource) + old(self).mission(mission_id).reward.amount <= u64::MAX,
        ensures
            final(self).wf(),
            outcome == if !old(self).has_mission(mission_id) {
                ProgressOutcome::NotFound
            } else if old(self).mission(mission_id).completed {
                ProgressOutcome::AlreadyCompleted
            } else if !requirements_met(
                old(self).mission(mission_id),
                *old(ledger),
                player,
                stars_discovered,
            ) {
                ProgressOutcome::RequirementsNotMet
            } else {
                ProgressOutcome::Completed
            },
            outcome != ProgressOutcome::Completed ==> *final(self) == *old(self) && *final(ledger)
                == *old(ledger),
            outcome == ProgressOutcome::Completed ==> {
                &&& final(self).missions@ == old(self).missions@.update(
                    mission_id - 1,
                    Mission { completed: true, ..old(self).mission(mission_id) },
                )
                &&& final(self).missions_of(player) == old(self).missions_of(player).push(
                    mission_id,
                )
                &&& forall|p: u64|
                    p != player ==> #[trigger] final(self).missions_of(p) == old(self).missions_of(
                        p,
                    )
                &&& final(self).achievements == old(self).achievements
                &&& final(self).player_achievements == old(self).player_achievements
                &&& final(ledger).balance(player, old(self).mission(mission_id).reward.resource)
                    == old(ledger).balance(player, old(self).mission(mission_id).reward.resource)
                    + old(self).mission(mission_id).reward.amount
                &&& forall|p: u64, r: u64|
                    !(p == player && r == old(self).mission(mission_id).reward.resource)
                        ==> #[trigger] final(ledger).balance(p, r) == old(ledger).balance(p, r)
                &&& final(ledger).history == old(ledger).history
            },
            final(ledger).prices == old(ledger).prices,
    {
        if mission_id < 1 || mission_id > self.missions.len() as u64 {
            return ProgressOutcome::NotFound;
        }
        let idx = (mission_id - 1) as usize;
        if self.missions[idx].completed {
            return ProgressOutcome::AlreadyCompleted;
        }
        if stars_discovered < self.missions[idx].requirements.stars {
            return ProgressOutcome::RequirementsNotMet;
        }
        let reward: Reward = self.missions[idx].reward;
        let n = self.missions[idx].requirements.resources.len();
        let mut i: usize = 0;
        while i < n
            invariant
                *self == *old(self),
                *ledger == *old(ledger),
                old(self).wf(),
                1 <= mission_id <= self.missions@.len(),
                idx == mission_id - 1,
                !self.missions@[idx as int].completed,
                stars_discovered >= self.missions@[idx as int].requirements.stars,
                reward == self.missions@[idx as int].reward,
                n == self.missions@[idx as int].requirements.resources@.len(),
                i <= n,
                forall|j: int|
                    0 <= j < i ==> ledger.balance(
                        player,
                        (#[trigger] self.missions@[idx as int].requirements.resources@[j]).resource,
                    ) >= self.missions@[idx as int].requirements.resources@[j].amount,
            decreases n - i,
        {
            let requirement: ResourceRequirement = self.missions[idx].requirements.resources[i];
            let balance = ledger.get_balance(player, requirement.resource);
            if balance < requirement.amount {
                proof {
                    let m = old(self).mission(mission_id);
                    assert(m.requirements.resources@[i as int] == requirement);
                    assert(old(ledger).balance(player, m.requirements.resources@[i as int].resource)
                        < m.requirements.resources@[i as int].amount);
                    assert(!requirements_met(m, *old(ledger), player, stars_discovered));
                }
                return ProgressOutcome::RequirementsNotMet;
            }
            i = i + 1;
        }
        let granted = ledger.credit(player, reward.resource, reward.amount);
        proof {
            assert(requirements_met(
                old(self).mission(mission_id),
                *old(ledger),
                player,
                stars_discovered,
            ));
            assert(granted);
        }
        let slot = &mut self.missions[idx];
        slot.completed = true;
        self.append_player_mission(player, mission_id);
        ProgressOutcome::Completed
    }

    /// Defines a new achievement under the next monotonic id, not yet
    /// completed.
    pub fn create_achievement(&mut self, name: String, description: String, reward: Reward) -> (id:
        u64)
        requires
            old(self).wf(),
            old(self).achievements@.len() + 2 <= u64::MAX,
        ensures
            final(self).wf(),
            id == old(self).achievements@.len() + 1,
            final(self).achievements@ == old(self).achievements@.push(
                Achievement { id, name, description, reward, completed: false },
            ),
            final(self).missions == old(self).missions,
            final(self).player_missions == old(self).player_missions,
            final(self).player_achievements == old(self).player_achievements,
    {
        let id: u64 = self.achievements.len() as u64 + 1;
        let achievement = Achievement { id, name, description, reward, completed: false };
        self.achievements.push(achievement);
        id
    }

    /// The achievement with this id, or `None` for an id never assigned.
    pub fn get_achievement(&self, id: u64) -> (result: Option<&Achievement>)
        ensures
            match result {
                Some(a) => self.has_achievement(id) && *a == self.achievement(id),
                None => !self.has_achievement(id),
            },
    {
        if id >= 1 && id <= self.achievements.len() as u64 {
            Some(&self.achievements[(id - 1) as usize])
        } else {
            None
        }
    }

    /// The ids of the achievements `player` has completed, in completion
    /// order.
    pub fn get_player_achievements(&self, player: u64) -> (ids: Vec<u64>)
        ensures
            ids@ == self.achievements_of(player),
    {
        match self.player_achievements.get(&player) {
            Some(stored) => {
                let mut out: Vec<u64> = Vec::new();
                let mut i: usize = 0;
                while i < stored.len()
                    invariant
                        i <= stored.len(),
                        out@ == stored@.take(i as int),
                    decreases stored.len() - i,
                {
                    out.push(stored[i]);
                    proof {
                        assert(stored@.take(i + 1) =~= stored@.take(i as int).push(
                            stored@[i as int],
                        ));
                    }
                    i = i + 1;
                }
                proof {
                    assert(stored@.take(stored@.len() as int) =~= stored@);
                }
                out
            },
            None => Vec::new(),
        }
    }

    /// Completes an achievement for `player`: achievements are triggered
    /// by other subsystems, so there is no requirement gate — the latch
    /// flips, the id is recorded under the player and the reward is
    /// credited, exactly once.  A retried call cleanly reports
    /// `AlreadyCompleted` without re-applying any effect.
    pub fn complete_achievement(
        &mut self,
        ledger: &mut EconomyContract,
        player: u64,
        achievement_id: u64,
    ) -> (outcome: ProgressOutcome)
        requires
            old(self).wf(),
            old(self).has_achievement(achievement_id) && !old(self).achievement(
                achievement_id,
            ).completed ==> old(ledger).balance(
                player,
                old(self).achievement(achievement_id).reward.resource,
            ) + old(self).achievement(achievement_id).reward.amount <= u64::MAX,
        ensures
            final(self).wf(),
            outcome == if !old(self).has_achievement(achievement_id) {
                ProgressOutcome::NotFound
            } else if old(self).achievement(achievement_id).completed {
                ProgressOutcome::AlreadyCompleted
            } else {
                ProgressOutcome::Completed
            },
            outcome != ProgressOutcome::Completed ==> *final(self) == *old(self) && *final(ledger)
                == *old(ledger),
            outcome == ProgressOutcome::Completed ==> {
                &&& final(self).achievements@ == old(self).achievements@.update(
                    achievement_id - 1,
                    Achievement { completed: true, ..old(self).achievement(achievement_id) },
                )
                &&& final(self).achievements_of(player) == old(self).achievements_of(player).push(
                    achievement_id,
                )
                &&& forall|p: u64|
                    p != player ==> #[trigger] final(self).achievements_of(p) == old(self).achievements_of(p)
                &&& final(self).missions == old(self).missions
                &&& final(self).player_missions == old(self).player_missions
                &&& final(ledger).balance(
                    player,
                    old(self).achievement(achievement_id).reward.resource,
                ) == old(ledger).balance(
                    player,
                    old(self).achievement(achievement_id).reward.resource,
                ) + old(self).achievement(achievement_id).reward.amount
                &&& forall|p: u64, r: u64|
                    !(p == player && r == old(self).achievement(achievement_id).reward.resource)
                        ==> #[trigger] final(ledger).balance(p, r) == old(ledger).balance(p, r)
                &&& final(ledger).history == old(ledger).history
            },
            final(ledger).prices == old(ledger).prices,
    {
        if achievement_id < 1 || achievement_id > self.achievements.len() as u64 {
            return ProgressOutcome::NotFound;
        }
        let idx = (achievement_id - 1) as usize;
        if self.achievements[idx].completed {
            return ProgressOutcome::AlreadyCompleted;
        }
        let reward: Reward = self.achievements[idx].reward;
        let granted = ledger.credit(player, reward.resource, reward.amount);
        proof {
            assert(granted);
        }
        let slot = &mut self.achievements[idx];
        slot.completed = true;
        self.append_player_achievement(player, achievement_id);
        ProgressOutcome::Completed
    }

    /// The number of missions defined so far.
    pub fn get_mission_counter(&self) -> (count: u64)
        requires
            self.wf(),
        ensures
            count == self.missions@.len(),
    {
        self.missions.len() as u64
    }

    /// The number of achievements defined so far.
    pub fn get_achievement_counter(&self) -> (count: u64)
        requires
            self.wf(),
        ensures
            count == self.achievements@.len(),
    {
        self.achievements.len() as u64
    }
}

} // verus!
