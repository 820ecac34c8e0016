//! The logic of a flight-simulation companion.
//!
//! `simconnect` is the client core of a telemetry session with a simulation
//! host: the session state, the subscription to aircraft positions, the
//! decoder for the host's event stream and the polling cycle. `backend`
//! holds the rules of the web service that stores and serves flight data,
//! and `endpoints` the surface of its successor. Everything here works on
//! plain values; the code that talks to the host, the database and the
//! network lives outside this library and drives it.

pub mod backend;
pub mod domain;
pub mod endpoints;
pub mod simconnect;
