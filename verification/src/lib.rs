//! Control library for Coherent "Discovery NX"-class tunable lasers.
//!
//! The crate holds the pure core of a serial-attached laser service: the
//! serial wire codec, the binary encoding used on the TCP side, the record
//! framing, the primary-client arbitration rules, and an in-memory stand-in
//! laser for tests. The thin I/O shells (serial port, TCP sockets, threads)
//! live outside the library and hand it plain values.

use vstd::prelude::*;

pub mod laser;
pub mod units;
pub mod wire;
pub mod encoding;
pub mod framing;
pub mod network;
pub mod ports;

pub use laser::{discoverynx, DiscoveryNXCommands, DiscoveryNXQueries, DiscoveryLaser};
pub use units::Milli;

verus! {

/// Errors reported by the laser-facing layer.
#[derive(Debug, PartialEq)]
pub enum CoherentError {
    SerialError(String),
    WriteError(String),
    TimeoutError,
    CommandNotExecutedError,
    InvalidArgumentsError(String),
    InvalidResponseError(String),
    LaserUnavailableError,
    NoRecognizedLasers,
    UnrecognizedDevice,
    SerializationError,
}

} // verus!
