//! Driver for a UART-attached JDY-40 wireless transceiver module.
//!
//! The module is configured through a fixed vocabulary of textual AT
//! commands.  This crate holds the protocol engine: the typed command
//! vocabulary and its exact wire encoding, the configuration record, the
//! capability contracts the driver needs from its host platform, and the
//! blocking handshake that pushes a configuration into the module.

mod capabilities;
mod commands;
mod config;
mod driver;

pub use capabilities::DelayMs;
pub use capabilities::OutputPin;
pub use capabilities::SerialPort;

pub use commands::JdyMode;
pub use commands::JdyPower;
pub use commands::JdySpeed;
pub use commands::mode_bytes;
pub use commands::power_bytes;
pub use commands::speed_bytes;
pub use config::Config;
pub use config::default_config;
pub use driver::Error;
pub use driver::Jdy40AT;
pub use driver::ack_slot;
pub use driver::acks_ok;
pub use driver::commands_flat;
pub use driver::config_applied;
pub use driver::config_commands;
pub use driver::config_failed;
pub use driver::exchange_failed;
pub use driver::exchange_passed;
pub use driver::handshake_step_failed;
pub use driver::ok_response;
