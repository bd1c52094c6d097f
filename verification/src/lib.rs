//! Event schedule engine and notification dispatch planning for a live game:
//! which in-world events are due at a wall-clock tick, which map rotation a
//! day carries, and which messages go to which subscribed destinations.

pub mod cache;
pub mod civil;
pub mod constants;
pub mod notification;
pub mod schedule;
pub mod shard_eruption;
pub mod sky_map;
pub mod text;
pub mod travelling_spirit;
