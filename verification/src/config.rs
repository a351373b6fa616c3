//! Configuration data for a garage: how relays are wired and which relays
//! each door uses. Parsed from the configuration surface by the embedding
//! program; validated here.

use crate::gpio::GpioError;
use vstd::prelude::*;

verus! {

/// Fatal configuration errors, reported before any pin is driven: an
/// unrecognized board model, an empty door list, more relay slots required
/// than the board provides, a relay index outside the resolved pin list, or
/// a pin that could not be acquired.
#[derive(Debug, Clone, Copy, PartialEq, Eq, Structural)]
pub enum ConfigError {
    UnknownBoard,
    NoDoors,
    RelayOverflow,
    RelayIndexOutOfRange,
    Gpio(GpioError),
}

/// How the relay pins are specified: by a known board model name, or by an
/// explicit ordered list of GPIO pin numbers.
pub enum RelayConfig {
    BoardBased { board: String },
    PinBased { pins: Vec<u8> },
}

/// One configured door: either a single toggle relay, or discrete open/close
/// relays with an optional stop relay. Relay indices are 1-based references
/// into the resolved pin list.
pub enum DoorConfig {
    ToggleButton {
        name: String,
        relay: usize,
    },
    DiscreteButtons {
        name: String,
        open_relay: usize,
        close_relay: usize,
        stop_relay: Option<usize>,
    },
}

/// The whole configuration: an advisory schema version, peer hosts to
/// federate with, the relay wiring, and the door list.
pub struct GarageConfig {
    pub version: u32,
    pub secondary_hosts: Vec<String>,
    pub relays: RelayConfig,
    pub doors: Vec<DoorConfig>,
}

impl DoorConfig {
    /// Relay slots this door occupies: one for a toggle door, two for a
    /// discrete door, three when it also has a stop relay.
    pub open spec fn spec_relay_count(&self) -> u8 {
        match self {
            DoorConfig::ToggleButton { .. } => 1,
            DoorConfig::DiscreteButtons { stop_relay: None, .. } => 2,
            DoorConfig::DiscreteButtons { stop_relay: Some(_), .. } => 3,
        }
    }

    pub fn relay_count(&self) -> (n: u8)
        ensures
            n == self.spec_relay_count(),
    {
        match self {
            DoorConfig::ToggleButton { .. } => 1,
            DoorConfig::DiscreteButtons { stop_relay, .. } => match stop_relay {
                None => 2,
                Some(_) => 3,
            },
        }
    }
}

/// Total relay slots required by a list of doors.
pub open spec fn total_relay_count(doors: Seq<DoorConfig>) -> int
    decreases doors.len(),
{
    if doors.len() == 0 {
        0
    } else {
        total_relay_count(doors.drop_last()) + doors.last().spec_relay_count()
    }
}

} // verus!
