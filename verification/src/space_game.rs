//! Player registry of the game world.
//!
//! [`SpaceGame`] tracks each registered player's fleet and the raw
//! resources the player has collected.  Registration happens once per
//! player; ships and collected resources are appended to the player's
//! record.  Collected resources are stamped with the issuing authority
//! (this component's own address).

use std::collections::HashMap;
use vstd::prelude::*;

verus! {

/// A raw resource holding: which resource, how much, and who issued it.
#[derive(Clone, Copy, Debug, PartialEq, Eq, Structural)]
pub struct Resource {
    pub name: u64,
    pub amount: i128,
    pub issuer: u64,
}

/// One ship of a player's fleet.  `name` and `ship_type` are symbolic
/// identifiers; the on-board `resources` hold is empty until cargo
/// handling exists.
pub struct Ship {
    pub name: u64,
    pub ship_type: u64,
    pub resources: Vec<Resource>,
    pub active: bool,
}

/// One registered player: fleet, collected resources, and the
/// registration mark.
pub struct Player {
    pub ships: Vec<Ship>,
    pub resources: Vec<Resource>,
    pub initialized: bool,
}

/// Expected failures of the player registry.
#[derive(Clone, Copy, Debug, PartialEq, Eq, Structural)]
pub enum SpaceGameError {
    AlreadyExists,
    NotFound,
}

/// The player registry.
pub struct SpaceGame {
    /// The record of each registered player.
    pub players: HashMap<u64, Player>,
    /// The address this component issues collected resources under.
    pub contract_address: u64,
}

impl SpaceGame {
    /// Whether `player` is registered.
    pub open spec fn has_player(self, player: u64) -> bool {
        self.players@.contains_key(player)
    }

    /// The record of `player`.
    pub open spec fn player_state(self, player: u64) -> Player
        recommends
            self.has_player(player),
    {
        self.players@[player]
    }

    /// An empty registry issuing under `contract_address`.
    pub fn new(contract_address: u64) -> (game: Self)
        ensures
            forall|p: u64| !(#[trigger] game.has_player(p)),
            game.contract_address == contract_address,
    {
        SpaceGame { players: HashMap::new(), contract_address }
    }

    /// Registers a new player with an empty fleet and no resources.  Fails
    /// with `AlreadyExists` (and changes nothing) exactly when the player
    /// is already registered.
    pub fn initialize_player(&mut self, player: u64) -> (result: Result<(), SpaceGameError>)
        ensures
            result == if old(self).has_player(player) {
                Result::<(), SpaceGameError>::Err(SpaceGameError::AlreadyExists)
            } else {
                Result::<(), SpaceGameError>::Ok(())
            },
            result is Err ==> *final(self) == *old(self),
            result is Ok ==> exists|st: Player|
                st.ships@.len() == 0 && st.resources@.len() == 0 && st.initialized && final(self).players@ == old(self).players@.insert(player, st),
            final(self).contract_address == old(self).contract_address,
    {
        if self.players.contains_key(&player) {
            return Err(SpaceGameError::AlreadyExists);
        }
        let state = Player { ships: Vec::new(), resources: Vec::new(), initialized: true };
        let ghost st = state;
        self.players.insert(player, state);
        proof {
            assert(st.ships@.len() == 0 && st.resources@.len() == 0 && st.initialized && self.players@
                == old(self).players@.insert(player, st));
        }
        Ok(())
    }

    /// Adds a new active ship to a registered player's fleet.  Fails with
    /// `NotFound` (and changes nothing) exactly when the player is not
    /// registered.
    pub fn create_ship(&mut self, player: u64, name: u64, ship_type: u64) -> (result: Result<
        (),
        SpaceGameError,
    >)
        ensures
            result == if old(self).has_player(player) {
                Result::<(), SpaceGameError>::Ok(())
            } else {
                Result::<(), SpaceGameError>::Err(SpaceGameError::NotFound)
            },
            result is Err ==> *final(self) == *old(self),
            result is Ok ==> exists|sh: Ship, st: Player|
                {
                    &&& sh.name == name
                    &&& sh.ship_type == ship_type
                    &&& sh.resources@.len() == 0
                    &&& sh.active
                    &&& st.ships@ == old(self).player_state(player).ships@.push(sh)
                    &&& st.resources == old(self).player_state(player).resources
                    &&& st.initialized == old(self).player_state(player).initialized
                    &&& final(self).players@ == old(self).players@.insert(player, st)
                },
            final(self).contract_address == old(self).contract_address,
    {
        if !self.players.contains_key(&player) {
            return Err(SpaceGameError::NotFound);
        }
        let mut state = match self.players.remove(&player) {
            Some(s) => s,
            None => unreached(),
        };
        let ship = Ship { name, ship_type, resources: Vec::new(), active: true };
        let ghost sh = ship;
        state.ships.push(ship);
        let ghost st = state;
        self.players.insert(player, state);
        proof {
            assert(self.players@ =~= old(self).players@.insert(player, st));
            assert(sh.name == name && sh.ship_type == ship_type && sh.resources@.len() == 0
                && sh.active && st.ships@ == old(self).player_state(player).ships@.push(sh)
                && st.resources == old(self).player_state(player).resources && st.initialized
                == old(self).player_state(player).initialized && self.players@ == old(self).players@.insert(player, st));
        }
        Ok(())
    }

    /// Records an amount of a raw resource collected by a registered
    /// player, stamped with this component's address.  Fails with
    /// `NotFound` (and changes nothing) exactly when the player is not
    /// registered.
    pub fn collect_resources(&mut self, player: u64, resource_name: u64, amount: i128) -> (result:
        Result<(), SpaceGameError>)
        ensures
            result == if old(self).has_player(player) {
                Result::<(), SpaceGameError>::Ok(())
            } else {
                Result::<(), SpaceGameError>::Err(SpaceGameError::NotFound)
            },
            result is Err ==> *final(self) == *old(self),
            result is Ok ==> exists|st: Player|
                {
                    &&& st.resources@ == old(self).player_state(player).resources@.push(
                        (Resource {
                            name: resource_name,
                            amount,
                            issuer: old(self).contract_address,
                        }),
                    )
                    &&& st.ships == old(self).player_state(player).ships
                    &&& st.initialized == old(self).player_state(player).initialized
                    &&& final(self).players@ == old(self).players@.insert(player, st)
                },
            final(self).contract_address == old(self).contract_address,
    {
        if !self.players.contains_key(&player) {
            return Err(SpaceGameError::NotFound);
        }
        let mut state = match self.players.remove(&player) {
            Some(s) => s,
            None => unreached(),
        };
        let resource = Resource { name: resource_name, amount, issuer: self.contract_address };
        state.resources.push(resource);
        let ghost st = state;
        self.players.insert(player, state);
        proof {
            assert(self.players@ =~= old(self).players@.insert(player, st));
            assert(st.resources@ == old(self).player_state(player).resources@.push(resource)
                && st.ships == old(self).player_state(player).ships && st.initialized == old(self).player_state(player).initialized && self.players@ == old(self).players@.insert(
                player,
                st,
            ));
        }
        Ok(())
    }

    /// The fleet of a registered player, or `None` for an unknown player.
    pub fn get_player_ships(&self, player: u64) -> (ships: Option<&Vec<Ship>>)
        ensures
            match ships {
                Some(v) => self.has_player(player) && v@ == self.player_state(player).ships@,
                None => !self.has_player(player),
            },
    {
        match self.players.get(&player) {
            Some(state) => Some(&state.ships),
            None => None,
        }
    }

    /// The resources a player has collected, in collection order; empty
    /// for an unknown player.
    pub fn get_player_resources(&self, player: u64) -> (resources: Vec<Resource>)
        ensures
            resources@ == if self.has_player(player) {
                self.player_state(player).resources@
            } else {
                Seq::<Resource>::empty()
            },
    {
        match self.players.get(&player) {
            Some(state) => {
                let stored = &state.resources;
                let mut out: Vec<Resource> = Vec::new();
                let mut i: usize = 0;
                while i < stored.len()
                    invariant
                        i <= stored.len(),
                        out@ == stored@.take(i as int),
                    decreases stored.len() - i,
                {
                    out.push(stored[i]);
                    proof {
                        assert(stored@.take(i + 1) =~= stored@.take(i as int).push(
                            stored@[i as int],
                        ));
                    }
                    i = i + 1;
                }
                proof {
                    assert(stored@.take(stored@.len() as int) =~= stored@);
                }
                out
            },
            None => Vec::new(),
        }
    }
}

} // verus!
