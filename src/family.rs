use vstd::prelude::*;

use crate::DHTSensorError;

verus! {

/// Shortest time between two measurements of a DHT1x sensor, in seconds.
pub const DHT1X_MIN_REQUEST_INTERVAL_SECS: u64 = 1;
/// Shortest time between two measurements of a DHT2x sensor, in seconds.
pub const DHT2X_MIN_REQUEST_INTERVAL_SECS: u64 = 2;
/// Width of the low start pulse for a DHT1x sensor, in microseconds.
pub const DHT1X_START_LOW_INTERVAL_US: u64 = 18_000;
/// Width of the low start pulse for a DHT2x sensor, in microseconds.
pub const DHT2X_START_LOW_INTERVAL_US: u64 = 1_100;
/// Microseconds in one second.
pub const MICROS_PER_SEC: u64 = 1_000_000;

/// The sensor family decides the bit layout, the conversion formulas and the
/// protocol timings. It is fixed for the lifetime of a driver.
#[derive(Debug, Clone, Copy, PartialEq, Eq, Structural)]
pub enum SensorFamily {
    /// DHT11-like sensors: integer byte plus tenths byte.
    Dht1x,
    /// DHT22-like sensors: one field counted in tenths.
    Dht2x,
}

pub open spec fn min_request_interval_secs_spec(family: SensorFamily) -> u64 {
    match family {
        SensorFamily::Dht1x => DHT1X_MIN_REQUEST_INTERVAL_SECS,
        SensorFamily::Dht2x => DHT2X_MIN_REQUEST_INTERVAL_SECS,
    }
}

pub open spec fn min_request_interval_micros_spec(family: SensorFamily) -> int {
    min_request_interval_secs_spec(family) * MICROS_PER_SEC
}

pub open spec fn start_low_interval_us_spec(family: SensorFamily) -> u64 {
    match family {
        SensorFamily::Dht1x => DHT1X_START_LOW_INTERVAL_US,
        SensorFamily::Dht2x => DHT2X_START_LOW_INTERVAL_US,
    }
}

/// The timing unit runs at 300 kHz, so one of its cycles lasts 3.33 us.
pub open spec fn start_pulse_cycles_spec(family: SensorFamily) -> int {
    start_low_interval_us_spec(family) * 333 / 1000
}

impl SensorFamily {
    /// Turns the two family switches into a family: exactly one must be set.
    pub fn from_selection(dht1x: bool, dht2x: bool) -> (r: Result<SensorFamily, DHTSensorError>)
        ensures
            dht1x && !dht2x ==> r == Ok::<SensorFamily, DHTSensorError>(SensorFamily::Dht1x),
            dht2x && !dht1x ==> r == Ok::<SensorFamily, DHTSensorError>(SensorFamily::Dht2x),
            dht1x == dht2x ==> r == Err::<SensorFamily, DHTSensorError>(
                DHTSensorError::ConfigurationError,
            ),
    {
        if dht1x && !dht2x {
            Ok(SensorFamily::Dht1x)
        } else if dht2x && !dht1x {
            Ok(SensorFamily::Dht2x)
        } else {
            Err(DHTSensorError::ConfigurationError)
        }
    }

    /// Shortest time between two measurements, in seconds.
    pub fn min_request_interval_secs(self) -> (r: u64)
        ensures
            r == min_request_interval_secs_spec(self),
    {
        match self {
            SensorFamily::Dht1x => DHT1X_MIN_REQUEST_INTERVAL_SECS,
            SensorFamily::Dht2x => DHT2X_MIN_REQUEST_INTERVAL_SECS,
        }
    }

    /// Shortest time between two measurements, in microseconds.
    pub fn min_request_interval_micros(self) -> (r: u64)
        ensures
            r == min_request_interval_micros_spec(self),
    {
        self.min_request_interval_secs() * MICROS_PER_SEC
    }

    /// Width of the low start pulse, in microseconds.
    pub fn start_low_interval_us(self) -> (r: u64)
        ensures
            r == start_low_interval_us_spec(self),
    {
        match self {
            SensorFamily::Dht1x => DHT1X_START_LOW_INTERVAL_US,
            SensorFamily::Dht2x => DHT2X_START_LOW_INTERVAL_US,
        }
    }

    /// Width of the low start pulse in timing-unit cycles, the value pushed
    /// to the timing unit to trigger a measurement.
    pub fn start_pulse_cycles(self) -> (r: u32)
        ensures
            r == start_pulse_cycles_spec(self),
    {
        (self.start_low_interval_us() * 333 / 1000) as u32
    }
}

} // verus!
