//! Network latency probe: the session protocol of TCP and UDP probes, the pacing of
//! iterations, and what the output sinks render.
//!
//! The library decides and the caller performs: sockets, clocks, sleeping, logging
//! and drawing stay with the caller, which hands the outcomes back as plain values.
pub mod chart;
pub mod error;
pub mod handshake;
pub mod output;
pub mod pacing;
pub mod proto;
pub mod session;
pub mod text;
pub mod trap;
