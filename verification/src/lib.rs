//! Relay-driven door controller: board resolution, timed relay pulses,
//! door lookup and dispatch, and federation of doors across peer hosts.

pub mod board;
pub mod board_pins;
pub mod cli;
pub mod config;
pub mod garage;
pub mod gpio;
pub mod sync;
