//! Concrete devices.
pub mod thermostat;
