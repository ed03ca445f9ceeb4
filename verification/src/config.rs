//! The configuration record: one choice per tunable parameter, plus the
//! raw network, device and channel address bytes.

use vstd::prelude::*;
use crate::commands::JdyMode;
use crate::commands::JdyPower;
use crate::commands::JdySpeed;

verus! {

/// One consistent combination of module parameters.
///
/// The `network`, `device` and `channel` fields are sent to the module as
/// raw, unframed bytes (not as textual AT commands); their exact lengths
/// of 4, 4 and 3 bytes are part of the wire protocol.
#[derive(Debug, Clone, Copy)]
pub struct Config {
    pub speed: JdySpeed,
    pub power: JdyPower,
    pub mode: JdyMode,
    pub network: [u8; 4],
    pub device: [u8; 4],
    pub channel: [u8; 3],
}

/// The documented factory baseline: 9600 bps, 6 dB, transparent mode,
/// network `[6,5,4,3]`, device `[0,0,1,0]`, channel `[0,0,7]`.
pub open spec fn default_config() -> Config {
    Config {
        speed: JdySpeed::Bods9600,
        power: JdyPower::Power6db,
        mode: JdyMode::ModeA0,
        network: [6u8, 5, 4, 3],
        device: [0u8, 0, 1, 0],
        channel: [0u8, 0, 7],
    }
}

impl Default for Config {
    /// The factory baseline configuration.
    fn default() -> (r: Self)
        ensures
            r == default_config(),
    {
        Config {
            speed: JdySpeed::Bods9600,
            power: JdyPower::Power6db,
            mode: JdyMode::ModeA0,
            network: [6u8, 5, 4, 3],
            device: [0u8, 0, 1, 0],
            channel: [0u8, 0, 7],
        }
    }
}

} // verus!
