//! Simulation core of a persistent multiplayer text-adventure world:
//! entities and their resource pools, the room graph, timed conditions,
//! opposed-roll combat, the event log, containment and the tick scheduler.
use vstd::prelude::*;

pub mod auth;
pub mod client;
pub mod combat;
pub mod conditions;
pub mod containment;
pub mod entity;
pub mod events;
pub mod maintenance;
pub mod messages;
pub mod rooms;
pub mod scheduler;
pub mod seed;
pub mod tables;
pub mod world;

verus! {

} // verus!
