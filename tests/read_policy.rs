use embassy_dht_sensor::decode::{decode_sample, RawFields};
use embassy_dht_sensor::sensor::{decode_reading, MAX_HUMIDITY_TENTHS};
use embassy_dht_sensor::{
    checksum, humidity, temperature, DHTSensor, DHTSensorError, DTHResponse, RawSample,
    ReadDecision, SensorFamily,
};

fn sample(humidity: u16, temperature: u16) -> RawSample {
    RawSample {
        data: ((humidity as u32) << 16) | temperature as u32,
        checksum: checksum(humidity, temperature) as u32,
    }
}

fn answer(d: ReadDecision) -> Option<Result<DTHResponse, DHTSensorError>> {
    match d {
        ReadDecision::Answer(r) => Some(r),
        ReadDecision::Acquire => None,
    }
}

const SECOND: u64 = 1_000_000;

fn sensor_with_reading(now: u64) -> (DHTSensor, DTHResponse) {
    let mut s = DHTSensor::new(SensorFamily::Dht2x);
    let r = s.finish_read(Ok(sample(0x01F4, 0x00C8)), now).unwrap();
    (s, r)
}

#[test]
fn checksum_of_known_bytes() {
    assert_eq!(checksum(0x01F4, 0x00C8), 0xBD);
    assert_eq!(checksum(0, 0), 0);
    assert_eq!(checksum(0xFFFF, 0xFFFF), ((255u32 * 4) % 256) as u8);
}

#[test]
fn checksum_round_trip_and_bit_flips() {
    for &(h, t) in &[(0x01F4u16, 0x00C8u16), (0xFFFF, 0xFFFF), (0, 0), (0x1234, 0x80AB)] {
        let good = sample(h, t);
        assert_eq!(
            decode_sample(&good),
            Ok(RawFields { humidity: h, temperature: t })
        );
        for bit in 0..8 {
            let flipped = RawSample { checksum: good.checksum ^ (1 << bit), ..good };
            assert_eq!(decode_sample(&flipped), Err(DHTSensorError::ChecksumError));
        }
    }
}

#[test]
fn checksum_word_upper_bits_are_ignored() {
    let s = RawSample { checksum: 0xABCD_EFBD, ..sample(0x01F4, 0x00C8) };
    assert_eq!(
        decode_sample(&s),
        Ok(RawFields { humidity: 0x01F4, temperature: 0x00C8 })
    );
}

#[test]
fn conversion_tenths_policy() {
    assert_eq!(humidity(SensorFamily::Dht2x, 0x01F4), 500);
    assert_eq!(temperature(SensorFamily::Dht2x, 0x00C8), 200);
    assert_eq!(temperature(SensorFamily::Dht2x, 0x80C8), -200);
    assert_eq!(temperature(SensorFamily::Dht2x, 0x8000), 0);
}

#[test]
fn conversion_byte_pair_policy() {
    assert_eq!(humidity(SensorFamily::Dht1x, 0x3705), 555);
    assert_eq!(temperature(SensorFamily::Dht1x, 0x1503), 213);
    assert_eq!(temperature(SensorFamily::Dht1x, 0x8105), -15);
    assert_eq!(humidity(SensorFamily::Dht1x, 0xFFFF), 2805);
}

#[test]
fn family_selection() {
    assert_eq!(SensorFamily::from_selection(true, false), Ok(SensorFamily::Dht1x));
    assert_eq!(SensorFamily::from_selection(false, true), Ok(SensorFamily::Dht2x));
    assert_eq!(
        SensorFamily::from_selection(false, false),
        Err(DHTSensorError::ConfigurationError)
    );
    assert_eq!(
        SensorFamily::from_selection(true, true),
        Err(DHTSensorError::ConfigurationError)
    );
}

#[test]
fn family_timings() {
    assert_eq!(SensorFamily::Dht1x.min_request_interval_micros(), SECOND);
    assert_eq!(SensorFamily::Dht2x.min_request_interval_micros(), 2 * SECOND);
    assert_eq!(SensorFamily::Dht2x.start_pulse_cycles(), 366);
    assert_eq!(SensorFamily::Dht1x.start_pulse_cycles(), 5994);
}

#[test]
fn first_read_before_warm_up_is_refused() {
    let s = DHTSensor::new(SensorFamily::Dht2x);
    assert_eq!(answer(s.begin_read(0)), Some(Err(DHTSensorError::NoData)));
    assert_eq!(answer(s.begin_read(2 * SECOND - 1)), Some(Err(DHTSensorError::NoData)));
    assert_eq!(answer(s.begin_read(2 * SECOND)), None);
}

#[test]
fn rate_limited_reads_are_identical_and_skip_acquisition() {
    let (s, first) = sensor_with_reading(10 * SECOND);
    assert_eq!(first, DTHResponse { humidity_tenths: 500, temperature_tenths: 200 });
    let a = answer(s.begin_read(10 * SECOND + 1));
    let b = answer(s.begin_read(12 * SECOND - 1));
    assert_eq!(a, Some(Ok(first)));
    assert_eq!(a, b);
}

#[test]
fn cache_expires_after_interval() {
    let (s, _) = sensor_with_reading(10 * SECOND);
    assert_eq!(answer(s.begin_read(12 * SECOND)), None);
    assert_eq!(answer(s.begin_read(u64::MAX)), None);
}

#[test]
fn fallback_on_timeout_and_checksum_error() {
    let (mut s, first) = sensor_with_reading(10 * SECOND);
    assert_eq!(s.finish_read(Err(DHTSensorError::Timeout), 13 * SECOND), Ok(first));
    let bad = RawSample { checksum: 0, ..sample(0x0100, 0x0100) };
    assert_eq!(s.finish_read(Ok(bad), 14 * SECOND), Ok(first));
    // The timestamp of the cached reading was not refreshed.
    assert_eq!(answer(s.begin_read(14 * SECOND)), None);
}

#[test]
fn no_cache_failure_propagates_error() {
    let mut s = DHTSensor::new(SensorFamily::Dht2x);
    assert_eq!(
        s.finish_read(Err(DHTSensorError::Timeout), 3 * SECOND),
        Err(DHTSensorError::Timeout)
    );
    assert_eq!(
        s.finish_read(Err(DHTSensorError::NoData), 3 * SECOND),
        Err(DHTSensorError::NoData)
    );
    let bad = RawSample { checksum: 0, ..sample(0x0100, 0x0100) };
    assert_eq!(s.finish_read(Ok(bad), 3 * SECOND), Err(DHTSensorError::ChecksumError));
    assert_eq!(answer(s.begin_read(3 * SECOND)), None);
}

#[test]
fn invalid_humidity_gate() {
    let mut s = DHTSensor::new(SensorFamily::Dht2x);
    let too_wet = sample(1001, 0x00C8);
    assert_eq!(s.finish_read(Ok(too_wet), 3 * SECOND), Err(DHTSensorError::InvalidData));
    let edge = s.finish_read(Ok(sample(1000, 0x00C8)), 3 * SECOND).unwrap();
    assert_eq!(edge.humidity_tenths, MAX_HUMIDITY_TENTHS);
    assert_eq!(s.finish_read(Ok(too_wet), 6 * SECOND), Ok(edge));
    assert_eq!(answer(s.begin_read(6 * SECOND)), None);
}

#[test]
fn decode_reading_combines_steps() {
    assert_eq!(
        decode_reading(SensorFamily::Dht2x, Ok(sample(0x01F4, 0x80C8))),
        Ok(DTHResponse { humidity_tenths: 500, temperature_tenths: -200 })
    );
    assert_eq!(
        decode_reading(SensorFamily::Dht1x, Err(DHTSensorError::Timeout)),
        Err(DHTSensorError::Timeout)
    );
}

#[test]
fn hardware_is_configured_once() {
    let mut s = DHTSensor::new(SensorFamily::Dht1x);
    assert!(s.begin_acquisition());
    assert!(!s.begin_acquisition());
    assert_eq!(s.family(), SensorFamily::Dht1x);
}
