//! Driver logic for single-wire DHT temperature and humidity sensors:
//! sensor family selection, raw sample decoding with checksum validation,
//! unit conversion, and the rate-limiting read cache with stale-data fallback.
//!
//! Readings are held as exact fixed-point values in tenths of a unit.
//! The hardware side (the PIO state machine, the clock, the awaits) hands
//! plain values to this library and acts on the plain values it returns.
use vstd::prelude::*;

pub mod convert;
pub mod decode;
pub mod family;
pub mod sensor;

pub use convert::{humidity, temperature};
pub use decode::{checksum, decode_sample, RawFields};
pub use family::SensorFamily;
pub use sensor::{DHTSensor, ReadDecision, SensorView};

verus! {

/// Ways in which a sensor read can fail.
#[derive(Debug, Clone, Copy, PartialEq, Eq, Structural)]
pub enum DHTSensorError {
    /// No measurement is available yet: the sensor has not warmed up.
    NoData,
    /// The transmitted checksum does not match the received bytes.
    ChecksumError,
    /// The decoded humidity lies outside the physically valid range.
    InvalidData,
    /// The timing unit did not answer in time.
    Timeout,
    /// Zero or several sensor families were selected.
    ConfigurationError,
}

/// One measurement: relative humidity in tenths of a percent and
/// temperature in tenths of a degree Celsius.
#[derive(Debug, Clone, Copy, PartialEq, Eq, Structural)]
pub struct DTHResponse {
    pub humidity_tenths: u32,
    pub temperature_tenths: i32,
}

/// The two packed words that the timing unit delivers for one measurement:
/// the humidity field in the upper and the temperature field in the lower
/// half of `data`, and the transmitted checksum in the low byte of `checksum`.
#[derive(Debug, Clone, Copy, PartialEq, Eq, Structural)]
pub struct RawSample {
    pub data: u32,
    pub checksum: u32,
}

} // verus!
