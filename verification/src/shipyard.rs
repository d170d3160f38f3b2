//! The shipyard: ship construction, upgrades and repairs.
//!
//! Ships are created with fixed starting stats and owned by a player; only
//! the owner may upgrade or repair.  An upgrade raises the level, the hull
//! and the cargo hold by fixed increments and heals the ship to full; a
//! repair heals a damaged ship to full.  Ship ids are assigned from a
//! single monotonic counter, so ship `i` sits at slot `i - 1`.

use std::collections::HashMap;
use vstd::prelude::*;

verus! {

/// Health and hull of a newly built ship.
pub const NEW_SHIP_HEALTH: u64 = 100;

/// Cargo capacity of a newly built ship.
pub const NEW_SHIP_CARGO: u64 = 1000;

/// Hull gained per upgrade.
pub const UPGRADE_HEALTH_GAIN: u64 = 20;

/// Cargo capacity gained per upgrade.
pub const UPGRADE_CARGO_GAIN: u64 = 200;

/// One ship.  `name` and `ship_type` are symbolic identifiers.
#[derive(Clone, Copy, Debug, PartialEq, Eq, Structural)]
pub struct Ship {
    pub id: u64,
    pub owner: u64,
    pub name: u64,
    pub ship_type: u64,
    pub health: u64,
    pub max_health: u64,
    pub cargo_capacity: u64,
    pub level: u64,
}

/// The shipyard registry.
pub struct ShipyardContract {
    /// Every ship ever built; the ship with id `i` sits at slot `i - 1`.
    pub ships: Vec<Ship>,
    /// The ids of the ships each player owns, in creation order.
    pub player_ships: HashMap<u64, Vec<u64>>,
}

impl ShipyardContract {
    /// Whether a ship with this id exists.
    pub open spec fn has_ship(self, id: u64) -> bool {
        1 <= id <= self.ships@.len()
    }

    /// The ship with id `id`.
    pub open spec fn ship(self, id: u64) -> Ship
        recommends
            self.has_ship(id),
    {
        self.ships@[id - 1]
    }

    /// The ids of the ships `player` owns, in creation order.
    pub open spec fn ships_of(self, player: u64) -> Seq<u64> {
        if self.player_ships@.contains_key(player) {
            self.player_ships@[player]@
        } else {
            Seq::<u64>::empty()
        }
    }

    /// Ship ids are dense and positive.
    pub open spec fn wf(self) -> bool {
        &&& self.ships@.len() + 1 <= u64::MAX
        &&& forall|i: int| 0 <= i < self.ships@.len() ==> (#[trigger] self.ships@[i]).id == i + 1
    }

    /// An empty shipyard.
    pub fn new() -> (yard: Self)
        ensures
            yard.wf(),
            yard.ships@ =~= Seq::<Ship>::empty(),
            forall|p: u64| #[trigger] yard.ships_of(p) == Seq::<u64>::empty(),
    {
        ShipyardContract { ships: Vec::new(), player_ships: HashMap::new() }
    }

    /// Records one ship id under a player.
    fn append_player_ship(&mut self, player: u64, id: u64)
        ensures
            final(self).ships_of(player) == old(self).ships_of(player).push(id),
            forall|p: u64|
                p != player ==> #[trigger] final(self).ships_of(p) == old(self).ships_of(p),
            final(self).ships == old(self).ships,
    {
        let ghost pre = *self;
        let mut ids: Vec<u64> = match self.player_ships.remove(&player) {
            Some(v) => v,
            None => Vec::new(),
        };
        proof {
            assert(ids@ =~= pre.ships_of(player));
        }
        ids.push(id);
        self.player_ships.insert(player, ids);
    }

    /// Builds a new ship for `owner` under the next monotonic id, with the
    /// fixed starting stats, and records it under the owner.
    pub fn create_ship(&mut self, owner: u64, name: u64, ship_type: u64) -> (id: u64)
        requires
            old(self).wf(),
            old(self).ships@.len() + 2 <= u64::MAX,
        ensures
            final(self).wf(),
            id == old(self).ships@.len() + 1,
            final(self).ships@ == old(self).ships@.push(
                (Ship {
                    id,
                    owner,
                    name,
                    ship_type,
                    health: NEW_SHIP_HEALTH,
                    max_health: NEW_SHIP_HEALTH,
                    cargo_capacity: NEW_SHIP_CARGO,
                    level: 1,
                }),
            ),
            final(self).ships_of(owner) == old(self).ships_of(owner).push(id),
            forall|p: u64|
                p != owner ==> #[trigger] final(self).ships_of(p) == old(self).ships_of(p),
    {
        let id: u64 = self.ships.len() as u64 + 1;
        let ship = Ship {
            id,
            owner,
            name,
            ship_type,
            health: NEW_SHIP_HEALTH,
            max_health: NEW_SHIP_HEALTH,
            cargo_capacity: NEW_SHIP_CARGO,
            level: 1,
        };
        self.ships.push(ship);
        self.append_player_ship(owner, id);
        id
    }

    /// The ship with this id, or `None` for an id never assigned.
    pub fn get_ship(&self, id: u64) -> (result: Option<Ship>)
        ensures
            result == if self.has_ship(id) {
                Some(self.ship(id))
            } else {
                None::<Ship>
            },
    {
        if id >= 1 && id <= self.ships.len() as u64 {
            Some(self.ships[(id - 1) as usize])
        } else {
            None
        }
    }

    /// The ids of the ships `player` owns, in creation order.
    pub fn get_player_ships(&self, player: u64) -> (ids: Vec<u64>)
        ensures
            ids@ == self.ships_of(player),
    {
        match self.player_ships.get(&player) {
            Some(stored) => {
                let mut out: Vec<u64> = Vec::new();
                let mut i: usize = 0;
                while i < stored.len()
                    invariant
                        i <= stored.len(),
                        out@ == stored@.take(i as int),
                    decreases stored.len() - i,
                {
                    out.push(stored[i]);
                    proof {
                        assert(stored@.take(i + 1) =~= stored@.take(i as int).push(
                            stored@[i as int],
                        ));
                    }
                    i = i + 1;
                }
                proof {
                    assert(stored@.take(stored@.len() as int) =~= stored@);
                }
                out
            },
            None => Vec::new(),
        }
    }

    /// Whether `player` may upgrade this ship: the ship exists, the caller
    /// owns it, and every upgraded stat stays within the machine range.
    pub open spec fn upgrade_allowed(self, player: u64, ship_id: u64) -> bool {
        &&& self.has_ship(ship_id)
        &&& self.ship(ship_id).owner == player
        &&& self.ship(ship_id).level + 1 <= u64::MAX
        &&& self.ship(ship_id).max_health + UPGRADE_HEALTH_GAIN <= u64::MAX
        &&& self.ship(ship_id).cargo_capacity + UPGRADE_CARGO_GAIN <= u64::MAX
    }

    /// Upgrades a ship: one level up, a larger hull and cargo hold, and a
    /// full heal.  Returns `false` and changes nothing unless the caller
    /// owns the ship (or a stat would leave the machine range).
    pub fn upgrade_ship(&mut self, player: u64, ship_id: u64) -> (ok: bool)
        requires
            old(self).wf(),
        ensures
            final(self).wf(),
            ok == old(self).upgrade_allowed(player, ship_id),
            !ok ==> *final(self) == *old(self),
            ok ==> final(self).ships@ == old(self).ships@.update(
                ship_id - 1,
                (Ship {
                    level: (old(self).ship(ship_id).level + 1) as u64,
                    max_health: (old(self).ship(ship_id).max_health + UPGRADE_HEALTH_GAIN) as u64,
                    cargo_capacity: (old(self).ship(ship_id).cargo_capacity
                        + UPGRADE_CARGO_GAIN) as u64,
                    health: (old(self).ship(ship_id).max_health + UPGRADE_HEALTH_GAIN) as u64,
                    ..old(self).ship(ship_id)
                }),
            ),
            ok ==> final(self).player_ships == old(self).player_ships,
    {
        if ship_id < 1 || ship_id > self.ships.len() as u64 {
            return false;
        }
        let idx = (ship_id - 1) as usize;
        let ship = self.ships[idx];
        if ship.owner != player {
            return false;
        }
        if ship.level == u64::MAX || ship.max_health > u64::MAX - UPGRADE_HEALTH_GAIN
            || ship.cargo_capacity > u64::MAX - UPGRADE_CARGO_GAIN {
            return false;
        }
        let slot = &mut self.ships[idx];
        slot.level = ship.level + 1;
        slot.max_health = ship.max_health + UPGRADE_HEALTH_GAIN;
        slot.cargo_capacity = ship.cargo_capacity + UPGRADE_CARGO_GAIN;
        slot.health = ship.max_health + UPGRADE_HEALTH_GAIN;
        true
    }

    /// Whether `player` may repair this ship: the ship exists, the caller
    /// owns it, and the ship is damaged.
    pub open spec fn repair_allowed(self, player: u64, ship_id: u64) -> bool {
        &&& self.has_ship(ship_id)
        &&& self.ship(ship_id).owner == player
        &&& self.ship(ship_id).health < self.ship(ship_id).max_health
    }

    /// Repairs a damaged ship to full health.  Returns `false` and changes
    /// nothing unless the caller owns the ship and it is damaged.
    pub fn repair_ship(&mut self, player: u64, ship_id: u64) -> (ok: bool)
        requires
            old(self).wf(),
        ensures
            final(self).wf(),
            ok == old(self).repair_allowed(player, ship_id),
            !ok ==> *final(self) == *old(self),
            ok ==> final(self).ships@ == old(self).ships@.update(
                ship_id - 1,
                (Ship { health: old(self).ship(ship_id).max_health, ..old(self).ship(ship_id) }),
            ),
            ok ==> final(self).player_ships == old(self).player_ships,
    {
        if ship_id < 1 || ship_id > self.ships.len() as u64 {
            return false;
        }
        let idx = (ship_id - 1) as usize;
        let ship = self.ships[idx];
        if ship.owner != player {
            return false;
        }
        if ship.health >= ship.max_health {
            return false;
        }
        let slot = &mut self.ships[idx];
        slot.health = ship.max_health;
        true
    }

    /// The number of ships built so far.
    pub fn get_ship_counter(&self) -> (count: u64)
        requires
            self.wf(),
        ensures
            count == self.ships@.len(),
    {
        self.ships.len() as u64
    }
}

} // verus!
