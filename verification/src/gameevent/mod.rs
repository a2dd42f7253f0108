//! The game event stream of a quiz game.

pub mod calc_checked;
pub mod calc_spec;
pub mod calculator;
pub mod code;
pub mod event;
pub mod laws;
pub mod rules;
pub mod stream;
pub mod stream_spec;
pub mod validator;
pub mod validator_input;
pub mod validator_spec;
