use vstd::prelude::*;

use crate::family::SensorFamily;

verus! {

/// A field read as an integer high byte and a tenths low byte, in tenths.
pub open spec fn byte_pair_tenths(field: int) -> int {
    (field / 256) * 10 + field % 256
}

/// Humidity in tenths of a percent for a raw humidity field; the humidity
/// field carries no sign bit.
pub open spec fn humidity_tenths_spec(family: SensorFamily, data: u16) -> int {
    match family {
        SensorFamily::Dht1x => byte_pair_tenths(data as int),
        SensorFamily::Dht2x => data as int,
    }
}

/// Temperature in tenths of a degree for a raw temperature field whose top
/// bit is the sign.
pub open spec fn temperature_tenths_spec(family: SensorFamily, data: u16) -> int {
    let magnitude = data as int % 0x8000;
    let tenths = match family {
        SensorFamily::Dht1x => byte_pair_tenths(magnitude),
        SensorFamily::Dht2x => magnitude,
    };
    if data >= 0x8000 {
        -tenths
    } else {
        tenths
    }
}

/// Converts a raw humidity field to tenths of a percent.
pub fn humidity(family: SensorFamily, data: u16) -> (r: u32)
    ensures
        r == humidity_tenths_spec(family, data),
{
    match family {
        SensorFamily::Dht1x => (data / 256) as u32 * 10 + (data % 256) as u32,
        SensorFamily::Dht2x => data as u32,
    }
}

/// Converts a raw temperature field to tenths of a degree Celsius.
pub fn temperature(family: SensorFamily, data: u16) -> (r: i32)
    ensures
        r == temperature_tenths_spec(family, data),
{
    let magnitude: u16 = data % 0x8000;
    let tenths: i32 = match family {
        SensorFamily::Dht1x => (magnitude / 256) as i32 * 10 + (magnitude % 256) as i32,
        SensorFamily::Dht2x => magnitude as i32,
    };
    if data >= 0x8000 {
        -tenths
    } else {
        tenths
    }
}

} // verus!
