//! A synthetic telemetry emitter: the sampling of the integer channels, the
//! wire text of a reading, and the decisions of the loop that keeps one
//! connection alive and paces what it sends.

pub mod channel;
pub mod config;
pub mod create_data;
pub mod decimal;
pub mod runs;
pub mod session;
pub mod wire;
