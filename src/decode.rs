use vstd::prelude::*;

use crate::{DHTSensorError, RawSample};

verus! {

/// The humidity and temperature fields of a sample whose checksum matched.
#[derive(Debug, Clone, Copy, PartialEq, Eq, Structural)]
pub struct RawFields {
    pub humidity: u16,
    pub temperature: u16,
}

/// Sum of four bytes, truncated to eight bits.
pub open spec fn byte_sum(b0: u8, b1: u8, b2: u8, b3: u8) -> u8 {
    ((b0 + b1 + b2 + b3) % 256) as u8
}

/// The checksum of two 16-bit fields: the sum of their four bytes.
pub open spec fn checksum_spec(humidity: u16, temperature: u16) -> u8 {
    byte_sum(
        (humidity % 256) as u8,
        (humidity / 256) as u8,
        (temperature % 256) as u8,
        (temperature / 256) as u8,
    )
}

/// The humidity field: the upper half of the data word.
pub open spec fn humidity_field(data: u32) -> u16 {
    (data / 0x10000) as u16
}

/// The temperature field: the lower half of the data word.
pub open spec fn temperature_field(data: u32) -> u16 {
    (data % 0x10000) as u16
}

/// What decoding a sample gives: its two fields when the low byte of the
/// checksum word equals the checksum of the fields, else a checksum error.
pub open spec fn decode_spec(sample: RawSample) -> Result<RawFields, DHTSensorError> {
    let h = humidity_field(sample.data);
    let t = temperature_field(sample.data);
    if (sample.checksum % 256) as u8 == checksum_spec(h, t) {
        Ok(RawFields { humidity: h, temperature: t })
    } else {
        Err(DHTSensorError::ChecksumError)
    }
}

/// Computes the checksum of a humidity and a temperature field.
pub fn checksum(humidity: u16, temperature: u16) -> (r: u8)
    ensures
        r == checksum_spec(humidity, temperature),
{
    let sum: u16 = humidity % 256 + humidity / 256 + temperature % 256 + temperature / 256;
    (sum % 256) as u8
}

/// Splits a sample into its fields and validates its checksum.
pub fn decode_sample(sample: &RawSample) -> (r: Result<RawFields, DHTSensorError>)
    ensures
        r == decode_spec(*sample),
{
    let humidity_data = (sample.data / 0x10000) as u16;
    let temperature_data = (sample.data % 0x10000) as u16;
    let checksum_data = (sample.checksum % 256) as u8;
    if checksum_data == checksum(humidity_data, temperature_data) {
        Ok(RawFields { humidity: humidity_data, temperature: temperature_data })
    } else {
        Err(DHTSensorError::ChecksumError)
    }
}

/// The data word that carries the humidity bytes `h_lo`, `h_hi` and the
/// temperature bytes `t_lo`, `t_hi`.
pub open spec fn pack_bytes(h_lo: u8, h_hi: u8, t_lo: u8, t_hi: u8) -> u32 {
    (((h_hi as int) * 256 + h_lo) * 0x10000 + (t_hi as int) * 256 + t_lo) as u32
}

/// For any four bytes, a sample whose checksum byte is their sum decodes to
/// the fields they make up, and flipping any one bit of that checksum byte
/// makes the sample fail with a checksum error.
pub proof fn lemma_checksum_round_trip(h_lo: u8, h_hi: u8, t_lo: u8, t_hi: u8, bit: u8)
    requires
        bit < 8,
    ensures
        decode_spec(
            RawSample {
                data: pack_bytes(h_lo, h_hi, t_lo, t_hi),
                checksum: byte_sum(h_lo, h_hi, t_lo, t_hi) as u32,
            },
        ) == Ok::<RawFields, DHTSensorError>(
            RawFields {
                humidity: ((h_hi as int) * 256 + h_lo) as u16,
                temperature: ((t_hi as int) * 256 + t_lo) as u16,
            },
        ),
        decode_spec(
            RawSample {
                data: pack_bytes(h_lo, h_hi, t_lo, t_hi),
                checksum: (byte_sum(h_lo, h_hi, t_lo, t_hi) ^ (1u8 << bit)) as u32,
            },
        ) == Err::<RawFields, DHTSensorError>(DHTSensorError::ChecksumError),
{
    let h: int = (h_hi as int) * 256 + h_lo;
    let t: int = (t_hi as int) * 256 + t_lo;
    let data = pack_bytes(h_lo, h_hi, t_lo, t_hi);
    assert(0 <= h < 0x10000 && 0 <= t < 0x10000) by (nonlinear_arith)
        requires
            h == (h_hi as int) * 256 + h_lo,
            t == (t_hi as int) * 256 + t_lo,
            h_hi < 256,
            h_lo < 256,
            t_hi < 256,
            t_lo < 256,
    ;
    assert(h * 0x10000 + t < 0x1_0000_0000) by (nonlinear_arith)
        requires
            0 <= h < 0x10000,
            0 <= t < 0x10000,
    ;
    assert(data / 0x10000 == h && data % 0x10000 == t) by (nonlinear_arith)
        requires
            data == h * 0x10000 + t,
            0 <= h < 0x10000,
            0 <= t < 0x10000,
    ;
    assert(h % 256 == h_lo && h / 256 == h_hi) by (nonlinear_arith)
        requires
            h == (h_hi as int) * 256 + h_lo,
            h_lo < 256,
    ;
    assert(t % 256 == t_lo && t / 256 == t_hi) by (nonlinear_arith)
        requires
            t == (t_hi as int) * 256 + t_lo,
            t_lo < 256,
    ;
    let c = byte_sum(h_lo, h_hi, t_lo, t_hi);
    assert(c ^ (1u8 << bit) != c) by (bit_vector)
        requires
            bit < 8,
    ;
}

} // verus!
