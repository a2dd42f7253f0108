//! Tournament management for quizzing events: the game event stream (building,
//! validating and scoring it), authorization policies, the role/permission tree,
//! model builders and the parsing of imported event files.

pub mod auth;
pub mod clock;
pub mod errors;
pub mod gameevent;
pub mod models;
pub mod seats;
pub mod seed;
pub mod text;
