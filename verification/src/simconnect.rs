//! The telemetry session with the simulation host.

pub mod connection;
pub mod decoder;
pub mod host;
pub mod identifiers;
pub mod poller;
pub mod record;
pub mod subscription;

pub use self::connection::SimConnect;
pub use self::identifiers::Event;
