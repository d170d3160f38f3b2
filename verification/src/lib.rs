//! Persistent economic core of a multiplayer space game.
//!
//! The crate tracks per-player resource balances, executes transfers and
//! market trades at a time-varying price, manages escrowed two-party trade
//! offers, and records idempotent progression (missions and achievements)
//! that grants rewards.  Every operation is specified by a contract and
//! verified: balances never go negative, transfers are all-or-nothing,
//! offers terminate exactly once, and completion latches are one-way.
//!
//! The host platform (durable storage, clock, event delivery, caller
//! identity) is out of scope: operations act on in-memory state and take
//! the current timestamp as an argument, so the whole state machine is
//! checkable.  Players, resource kinds and short symbolic names are
//! identified by plain integers; the surrounding application maps its own
//! identity and name types onto them.

pub mod economy;
pub mod keys;
pub mod mission;
pub mod missions;
pub mod pricing;
pub mod shipyard;
pub mod space_game;
pub mod star_system;
pub mod trading;
