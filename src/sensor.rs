use vstd::prelude::*;

use crate::convert::{humidity, humidity_tenths_spec, temperature, temperature_tenths_spec};
use crate::decode::{decode_sample, decode_spec, RawFields};
use crate::family::{min_request_interval_micros_spec, SensorFamily};
use crate::{DHTSensorError, DTHResponse, RawSample};

verus! {

/// Largest humidity, in tenths of a percent, that is physically valid.
pub const MAX_HUMIDITY_TENTHS: u32 = 1000;

/// The state of one driver: its family, the last good reading with the
/// clock time (in microseconds) at which it was taken, and whether the
/// hardware has been configured.
pub struct SensorView {
    pub family: SensorFamily,
    pub last_response: Option<DTHResponse>,
    pub last_read_time: Option<u64>,
    pub initialized: bool,
}

impl SensorView {
    /// The last reading and its time are only ever set together.
    pub open spec fn wf(self) -> bool {
        self.last_response is Some <==> self.last_read_time is Some
    }
}

/// What a read does first, before any hardware access.
#[derive(Debug, Clone, Copy)]
pub enum ReadDecision {
    /// The read is over: hand this result to the caller.
    Answer(Result<DTHResponse, DHTSensorError>),
    /// A new measurement must be taken from the hardware.
    Acquire,
}

/// Whether `now` lies less than the family's minimum request interval after
/// `last`. A clock time before `last` counts as within the interval.
pub open spec fn within_interval(family: SensorFamily, last: u64, now: u64) -> bool {
    (now as int) - (last as int) < min_request_interval_micros_spec(family)
}

/// The decision of a read at clock time `now`. A recent reading is served
/// from the cache. With no reading taken yet, a read before the clock has
/// run for one minimum interval is refused. This warm-up gate counts from
/// the clock's zero (boot time on the device), not from construction.
pub open spec fn decide_spec(s: SensorView, now: u64) -> ReadDecision {
    match s.last_read_time {
        Some(last) => if within_interval(s.family, last, now) && s.last_response is Some {
            ReadDecision::Answer(Ok(s.last_response->0))
        } else {
            ReadDecision::Acquire
        },
        None => if (now as int) < min_request_interval_micros_spec(s.family) {
            ReadDecision::Answer(Err(DHTSensorError::NoData))
        } else {
            ReadDecision::Acquire
        },
    }
}

/// The reading that two valid raw fields stand for.
pub open spec fn reading_spec(family: SensorFamily, fields: RawFields) -> DTHResponse {
    DTHResponse {
        humidity_tenths: humidity_tenths_spec(family, fields.humidity) as u32,
        temperature_tenths: temperature_tenths_spec(family, fields.temperature) as i32,
    }
}

/// What one acquisition yields before any fallback: its error, a checksum
/// error, `InvalidData` for a humidity above 100 %, or the new reading.
pub open spec fn acquisition_spec(
    family: SensorFamily,
    acquired: Result<RawSample, DHTSensorError>,
) -> Result<DTHResponse, DHTSensorError> {
    match acquired {
        Err(e) => Err(e),
        Ok(sample) => match decode_spec(sample) {
            Err(e) => Err(e),
            Ok(fields) => {
                let reading = reading_spec(family, fields);
                if reading.humidity_tenths <= MAX_HUMIDITY_TENTHS {
                    Ok(reading)
                } else {
                    Err(DHTSensorError::InvalidData)
                }
            },
        },
    }
}

/// What the caller receives when a read ends with the error `e`: the cached
/// reading if there is one, else `e` itself.
pub open spec fn fallback_spec(s: SensorView, e: DHTSensorError) -> Result<
    DTHResponse,
    DHTSensorError,
> {
    match s.last_response {
        Some(r) => Ok(r),
        None => Err(e),
    }
}

/// What a read that acquired returns to its caller.
pub open spec fn outcome_spec(s: SensorView, acquired: Result<RawSample, DHTSensorError>) -> Result<
    DTHResponse,
    DHTSensorError,
> {
    match acquisition_spec(s.family, acquired) {
        Ok(r) => Ok(r),
        Err(e) => fallback_spec(s, e),
    }
}

/// The state after a read that acquired and finished at clock time `now`:
/// a new reading is stored with that time; on failure nothing changes.
pub open spec fn after_read_spec(
    s: SensorView,
    acquired: Result<RawSample, DHTSensorError>,
    now: u64,
) -> SensorView {
    match acquisition_spec(s.family, acquired) {
        Ok(r) => SensorView { last_response: Some(r), last_read_time: Some(now), ..s },
        Err(_) => s,
    }
}

/// Two reads while the cached reading is younger than the minimum interval
/// are both answered from the cache, with the same reading, and neither
/// touches the hardware.
pub proof fn lemma_rate_limited_reads_agree(s: SensorView, now1: u64, now2: u64)
    requires
        s.wf(),
        s.last_read_time is Some,
        within_interval(s.family, s.last_read_time->0, now1),
        within_interval(s.family, s.last_read_time->0, now2),
    ensures
        decide_spec(s, now1) == ReadDecision::Answer(Ok(s.last_response->0)),
        decide_spec(s, now2) == decide_spec(s, now1),
{
}

/// A read that took a new reading, finished at `done`, is followed within
/// the minimum interval by a read that returns that same reading from the
/// cache without acquiring.
pub proof fn lemma_fresh_reading_is_served_from_cache(
    s: SensorView,
    acquired: Result<RawSample, DHTSensorError>,
    done: u64,
    now: u64,
)
    requires
        acquisition_spec(s.family, acquired) is Ok,
        within_interval(s.family, done, now),
    ensures
        outcome_spec(s, acquired) is Ok,
        decide_spec(after_read_spec(s, acquired, done), now) == ReadDecision::Answer(
            outcome_spec(s, acquired),
        ),
{
}

/// Once the minimum interval has passed since the cached reading was taken,
/// a read always acquires anew.
pub proof fn lemma_cache_expiry(s: SensorView, now: u64)
    requires
        s.last_read_time is Some,
        !within_interval(s.family, s.last_read_time->0, now),
    ensures
        decide_spec(s, now) == ReadDecision::Acquire,
{
}

/// With a reading cached, a failed acquisition (a timeout, a checksum
/// mismatch, or any other error) returns the cached reading and leaves the
/// state, its timestamp included, unchanged.
pub proof fn lemma_fallback_on_error(
    s: SensorView,
    acquired: Result<RawSample, DHTSensorError>,
    now: u64,
)
    requires
        s.last_response is Some,
        acquisition_spec(s.family, acquired) is Err,
    ensures
        outcome_spec(s, acquired) == Ok::<DTHResponse, DHTSensorError>(s.last_response->0),
        after_read_spec(s, acquired, now) == s,
{
}

/// With no reading cached, a failed acquisition reaches the caller with its
/// own error unchanged, and a sample with a bad checksum with a checksum
/// error.
pub proof fn lemma_no_cache_failure(
    s: SensorView,
    acquired: Result<RawSample, DHTSensorError>,
)
    requires
        s.last_response is None,
    ensures
        acquired is Err ==> outcome_spec(s, acquired) == Err::<DTHResponse, DHTSensorError>(
            acquired->Err_0,
        ),
        acquired is Ok && decode_spec(acquired->Ok_0) is Err ==> outcome_spec(s, acquired) == Err::<
            DTHResponse,
            DHTSensorError,
        >(DHTSensorError::ChecksumError),
{
}

/// A sample that decodes to a humidity above 100 % fails with `InvalidData`
/// when nothing is cached, returns the cached reading otherwise, and is
/// never stored.
pub proof fn lemma_invalid_humidity_gate(s: SensorView, sample: RawSample, now: u64)
    requires
        decode_spec(sample) is Ok,
        humidity_tenths_spec(s.family, decode_spec(sample)->Ok_0.humidity)
            > MAX_HUMIDITY_TENTHS,
    ensures
        s.last_response is None ==> outcome_spec(s, Ok(sample)) == Err::<
            DTHResponse,
            DHTSensorError,
        >(DHTSensorError::InvalidData),
        s.last_response is Some ==> outcome_spec(s, Ok(sample)) == Ok::<
            DTHResponse,
            DHTSensorError,
        >(s.last_response->0),
        after_read_spec(s, Ok(sample), now) == s,
{
    let h = decode_spec(sample)->Ok_0.humidity;
    assert(humidity_tenths_spec(s.family, h) < 0x10000) by (nonlinear_arith)
        requires
            humidity_tenths_spec(s.family, h) == (h as int / 256) * 10 + h as int % 256
                || humidity_tenths_spec(s.family, h) == h as int,
            h < 0x10000,
    ;
}

/// Decodes, validates and converts the result of one acquisition.
pub fn decode_reading(family: SensorFamily, acquired: Result<RawSample, DHTSensorError>) -> (r:
    Result<DTHResponse, DHTSensorError>)
    ensures
        r == acquisition_spec(family, acquired),
{
    match acquired {
        Err(e) => Err(e),
        Ok(sample) => match decode_sample(&sample) {
            Err(e) => Err(e),
            Ok(fields) => {
                let reading = DTHResponse {
                    humidity_tenths: humidity(family, fields.humidity),
                    temperature_tenths: temperature(family, fields.temperature),
                };
                if reading.humidity_tenths <= MAX_HUMIDITY_TENTHS {
                    Ok(reading)
                } else {
                    Err(DHTSensorError::InvalidData)
                }
            },
        },
    }
}

/// The read policy of one sensor: the rate limit, the cache of the last
/// good reading and the stale-data fallback. The hardware side asks
/// `begin_read` first, and only on `Acquire` takes a measurement and hands
/// it to `finish_read`.
pub struct DHTSensor {
    family: SensorFamily,
    last_response: Option<DTHResponse>,
    last_read_time: Option<u64>,
    initialized: bool,
}

impl View for DHTSensor {
    type V = SensorView;

    closed spec fn view(&self) -> SensorView {
        SensorView {
            family: self.family,
            last_response: self.last_response,
            last_read_time: self.last_read_time,
            initialized: self.initialized,
        }
    }
}

impl DHTSensor {
    /// A driver of the given family with no reading yet and the hardware
    /// not configured.
    pub fn new(family: SensorFamily) -> (r: DHTSensor)
        ensures
            r@ == (SensorView {
                family,
                last_response: None,
                last_read_time: None,
                initialized: false,
            }),
            r@.wf(),
    {
        DHTSensor { family, last_response: None, last_read_time: None, initialized: false }
    }

    /// The family chosen at construction.
    pub fn family(&self) -> (r: SensorFamily)
        ensures
            r == self@.family,
    {
        self.family
    }

    /// Decides, at clock time `now` in microseconds, whether a read is
    /// answered at once or needs a new measurement.
    pub fn begin_read(&self, now: u64) -> (r: ReadDecision)
        ensures
            r == decide_spec(self@, now),
    {
        match self.last_read_time {
            Some(last) => {
                let recent = now < last || now - last < self.family.min_request_interval_micros();
                match self.last_response {
                    Some(response) => if recent {
                        ReadDecision::Answer(Ok(response))
                    } else {
                        ReadDecision::Acquire
                    },
                    None => ReadDecision::Acquire,
                }
            },
            None => if now < self.family.min_request_interval_micros() {
                ReadDecision::Answer(Err(DHTSensorError::NoData))
            } else {
                ReadDecision::Acquire
            },
        }
    }

    /// Marks the hardware as configured; returns whether it still had to be,
    /// that is whether this is the first acquisition.
    pub fn begin_acquisition(&mut self) -> (needs_setup: bool)
        ensures
            needs_setup == !old(self)@.initialized,
            final(self)@ == (SensorView { initialized: true, ..old(self)@ }),
    {
        let needs_setup = !self.initialized;
        self.initialized = true;
        needs_setup
    }

    /// Ends a read that acquired: `acquired` is what the hardware delivered
    /// and `now` the clock time, in microseconds, when it was delivered.
    pub fn finish_read(&mut self, acquired: Result<RawSample, DHTSensorError>, now: u64) -> (r:
        Result<DTHResponse, DHTSensorError>)
        ensures
            r == outcome_spec(old(self)@, acquired),
            final(self)@ == after_read_spec(old(self)@, acquired, now),
            old(self)@.wf() ==> final(self)@.wf(),
    {
        match decode_reading(self.family, acquired) {
            Ok(reading) => {
                self.last_response = Some(reading);
                self.last_read_time = Some(now);
                Ok(reading)
            },
            Err(e) => match self.last_response {
                Some(cached) => Ok(cached),
                None => Err(e),
            },
        }
    }
}

} // verus!
