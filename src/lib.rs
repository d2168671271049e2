//! Client side of the GoXLR Utility's local control protocol: frame handling,
//! status interpretation, the preflight handshake and the session monitor.

pub mod cli;
pub mod dialog;
pub mod frame;
pub mod json;
pub mod monitor;
pub mod preflight;
pub mod status;
