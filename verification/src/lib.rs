//! Connecting to Xiaomi Mijia 2 Bluetooth temperature/humidity sensors and
//! bridging their readings to a home-automation telemetry bus.
//!
//! The crate holds the two subsystems whose behaviour is worth stating
//! precisely: the binary protocol codec (fixed-layout byte buffers decoded
//! into readings, history records, clock values and display settings) and the
//! per-sensor connection orchestration (discovery, connection state machine,
//! watchdog and event dispatch over a registry of sensors). Transport I/O and
//! the telemetry client are external collaborators driven by a thin
//! unverified shell around this crate.

pub mod clock;
pub mod config;
pub mod dispatch;
pub mod errors;
pub mod events;
pub mod history;
pub mod mac;
pub mod orchestrator;
pub mod readings;
pub mod registry;
pub mod settings;
pub mod text;
pub mod wire;
