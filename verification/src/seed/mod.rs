//! The records that seed a fresh database: the default permissions and roles, the super user,
//! and demonstration data.

pub mod defaults;
pub mod demo;
pub mod game_events;
