//! Network session layer of a driver-station bridge: a fixed-layout binary
//! wire codec, a periodic-reconnect connection state machine, and the
//! reactor bookkeeping that moves encoded telemetry out and decoded
//! messages in. All socket and timer I/O lives outside this crate; the
//! functions here are the decisions and byte-level work that the I/O loop
//! drives, each with a verified contract.

pub mod message;
pub mod server;
