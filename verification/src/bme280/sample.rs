//! What a BME280 measurement consists of before compensation.

use crate::bme280::Bme280Calibration;
use crate::error::SensorError;
use vstd::prelude::*;

verus! {

/// The ADC values of one measurement: 20 bits of pressure, 20 bits of
/// temperature and 16 bits of humidity.
#[derive(Debug, Clone, Copy, PartialEq, Eq, Structural)]
pub struct RawSample {
    pub adc_p: u32,
    pub adc_t: u32,
    pub adc_h: u32,
}

/// What the compensation formulas are evaluated on: ADC values, and the
/// calibration of the sensor that they come from.
#[derive(Debug, Clone, Copy, PartialEq, Eq, Structural)]
pub struct Measurement {
    pub calibration: Bme280Calibration,
    pub sample: RawSample,
}

/// A 20-bit ADC value: eight bits, the next eight, and the last four in the
/// high nibble of the third byte.
pub open spec fn adc_20_bit(msb: u8, lsb: u8, xlsb: u8) -> int {
    4096 * msb + 16 * lsb + xlsb as int / 16
}

/// A 16-bit ADC value, high byte first.
pub open spec fn adc_16_bit(msb: u8, lsb: u8) -> int {
    256 * msb + lsb
}

/// The measurement that the data registers `raw` hold.
pub open spec fn sample_in(raw: Seq<u8>) -> RawSample {
    RawSample {
        adc_p: adc_20_bit(raw[0], raw[1], raw[2]) as u32,
        adc_t: adc_20_bit(raw[3], raw[4], raw[5]) as u32,
        adc_h: adc_16_bit(raw[6], raw[7]) as u32,
    }
}

/// A 20-bit ADC value from its three bytes.
fn u20_from_be(msb: u8, lsb: u8, xlsb: u8) -> (value: u32)
    ensures
        value == adc_20_bit(msb, lsb, xlsb),
{
    assert(((msb as u32) << 12 | (lsb as u32) << 4 | (xlsb as u32) >> 4) == 4096 * (msb as u32) + 16
        * (lsb as u32) + (xlsb as u32) / 16) by (bit_vector);
    (msb as u32) << 12 | (lsb as u32) << 4 | (xlsb as u32) >> 4
}

impl RawSample {
    /// Reads the ADC values out of the data registers.
    pub fn unpack(raw: &[u8; 8]) -> (sample: Self)
        ensures
            sample == sample_in(raw@),
            sample.adc_p == 4096 * raw@[0] + 16 * raw@[1] + raw@[2] as int / 16,
            sample.adc_t == 4096 * raw@[3] + 16 * raw@[4] + raw@[5] as int / 16,
            sample.adc_h == 256 * raw@[6] + raw@[7],
            sample.adc_p < 0x10_0000,
            sample.adc_t < 0x10_0000,
            sample.adc_h < 0x1_0000,
    {
        let (msb, lsb) = (raw[6], raw[7]);
        assert(((msb as u32) << 8 | lsb as u32) == 256 * (msb as u32) + lsb as u32) by (bit_vector);
        RawSample {
            adc_p: u20_from_be(raw[0], raw[1], raw[2]),
            adc_t: u20_from_be(raw[3], raw[4], raw[5]),
            adc_h: (msb as u32) << 8 | lsb as u32,
        }
    }
}

/// What a read results in once the compensation formulas have been evaluated
/// on its measurement: their value, or `None` where the divisor of the pressure
/// formula came out as zero.
pub fn compensated<T>(reading: Option<T>) -> (result: Result<T, SensorError>)
    ensures
        match reading {
            Some(value) => result == Ok::<T, SensorError>(value),
            None => result == Err::<T, SensorError>(SensorError::InvalidData),
        },
{
    match reading {
        Some(value) => Ok(value),
        None => Err(SensorError::InvalidData),
    }
}

/// The sample holds all that the data registers hold but the low nibbles of
/// the two bytes at 0xF9 and 0xFC, which are not part of it.
pub proof fn law_sample_is_faithful(raw1: Seq<u8>, raw2: Seq<u8>)
    requires
        raw1.len() == 8,
        raw2.len() == 8,
    ensures
        sample_in(raw1) == sample_in(raw2) <==> {
            &&& forall|i: int| 0 <= i < 8 && i != 2 && i != 5 ==> raw1[i] == raw2[i]
            &&& raw1[2] as int / 16 == raw2[2] as int / 16
            &&& raw1[5] as int / 16 == raw2[5] as int / 16
        },
{
    if sample_in(raw1) == sample_in(raw2) {
        let (s1, s2) = (sample_in(raw1), sample_in(raw2));
        assert(s1.adc_p == s2.adc_p && s1.adc_t == s2.adc_t && s1.adc_h == s2.adc_h);
        assert(raw1[0] == raw2[0] && raw1[1] == raw2[1]);
        assert(raw1[3] == raw2[3] && raw1[4] == raw2[4]);
        assert(raw1[6] == raw2[6] && raw1[7] == raw2[7]);
    }
}

/// Each ADC value comes from its own registers: pressure from the first three,
/// temperature from the next three, humidity from the last two, most
/// significant bits first.
pub proof fn law_sample_fields(raw: Seq<u8>)
    ensures
        sample_in(raw).adc_p == 4096 * raw[0] + 16 * raw[1] + raw[2] as int / 16,
        sample_in(raw).adc_t == 4096 * raw[3] + 16 * raw[4] + raw[5] as int / 16,
        sample_in(raw).adc_h == 256 * raw[6] + raw[7],
{
}

} // verus!
