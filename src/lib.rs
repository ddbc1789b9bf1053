//! Bridge between a rigid-body physics engine and an entity/component host:
//! handle resolution, collision notification buffering and translation, and a
//! request/response protocol that drives the simulation.

pub mod ids;
pub mod registry;
pub mod channel;
pub mod collision;
pub mod control;
pub mod dispatch;
pub mod laws;
