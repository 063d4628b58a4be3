//! Verified bridge between a Koto script runtime and a host entity store.
//!
//! The library holds the parts of the bridge that carry invariants: the
//! identity cells that let a script refer to an entity before it exists, the
//! engine's load protocol, the per-entity update dispatch and despawn rules,
//! the frame's phase order and the event queues that cross it.

pub mod channel;
pub mod entity;
pub mod identity;
pub mod queue;
pub mod runtime;
pub mod schedule;
pub mod script;

pub use identity::{EntityId, EntityMappings, KotoEntityMapping};
