//! Driver for the TSL2591 ambient-light sensor, spoken to over a two-wire
//! serial register bus.
//!
//! The driver owns a transport handle (anything implementing [`Transport`]),
//! keeps a cached copy of the device configuration (enabled flag, integration
//! time, gain), and offers power control, configuration, raw dual-channel
//! readings, and a derived illuminance value.
//!
//! Illuminance is returned as an exact rational number ([`lux::Lux`]); callers
//! that want a floating-point value divide the two parts themselves, outside
//! this library.

pub mod config;
pub mod driver;
pub mod lux;
pub mod mock;
pub mod registers;
pub mod transport;

pub use config::Gain;
pub use config::IntegrationTime;
pub use driver::InitError;
pub use driver::Tsl2591;
pub use lux::Lux;
pub use lux::ReadError;
pub use mock::MockBus;
pub use transport::BusError;
pub use transport::Transport;
