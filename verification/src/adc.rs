//! Analog-to-digital converter configuration values.

use vstd::prelude::*;

verus! {

/// ADC sampling time.
///
/// Options for the sampling time, each is T + 0.5 ADC clock cycles.
#[derive(Clone, Copy, Debug, PartialEq, Eq, Structural)]
#[allow(non_camel_case_types)]
pub enum AdcSampleTime {
    /// 1.5 cycles sampling time
    T_1,
    /// 2.5 cycles sampling time
    T_2,
    /// 8.5 cycles sampling time
    T_8,
    /// 16.5 cycles sampling time
    T_16,
    /// 32.5 cycles sampling time
    T_32,
    /// 64.5 cycles sampling time
    T_64,
    /// 387.5 cycles sampling time
    T_387,
    /// 810.5 cycles sampling time
    T_810,
}

/// Register encoding of a sampling time.
pub open spec fn adc_sample_time_bits(val: AdcSampleTime) -> u8 {
    match val {
        AdcSampleTime::T_1 => 0b000,
        AdcSampleTime::T_2 => 0b001,
        AdcSampleTime::T_8 => 0b010,
        AdcSampleTime::T_16 => 0b011,
        AdcSampleTime::T_32 => 0b100,
        AdcSampleTime::T_64 => 0b101,
        AdcSampleTime::T_387 => 0b110,
        AdcSampleTime::T_810 => 0b111,
    }
}

impl AdcSampleTime {
    /// The sampling time drivers start from.
    pub fn default() -> (r: Self)
        ensures
            r == AdcSampleTime::T_32,
    {
        AdcSampleTime::T_32
    }
}

impl vstd::std_specs::convert::FromSpecImpl<AdcSampleTime> for u8 {
    open spec fn obeys_from_spec() -> bool {
        true
    }

    open spec fn from_spec(v: AdcSampleTime) -> u8 {
        adc_sample_time_bits(v)
    }
}

impl From<AdcSampleTime> for u8 {
    fn from(val: AdcSampleTime) -> (r: u8) {
        match val {
            AdcSampleTime::T_1 => 0b000,
            AdcSampleTime::T_2 => 0b001,
            AdcSampleTime::T_8 => 0b010,
            AdcSampleTime::T_16 => 0b011,
            AdcSampleTime::T_32 => 0b100,
            AdcSampleTime::T_64 => 0b101,
            AdcSampleTime::T_387 => 0b110,
            AdcSampleTime::T_810 => 0b111,
        }
    }
}

/// ADC sampling resolution.
#[derive(Clone, Copy, Debug, PartialEq, Eq, Structural)]
#[allow(non_camel_case_types)]
pub enum AdcSampleResolution {
    /// 16 bit resolution
    B_16,
    /// 14 bit resolution
    B_14,
    /// 12 bit resolution
    B_12,
    /// 10 bit resolution
    B_10,
    /// 8 bit resolution
    B_8,
}

/// Register encoding of a sampling resolution.
pub open spec fn adc_sample_resolution_bits(val: AdcSampleResolution) -> u8 {
    match val {
        AdcSampleResolution::B_16 => 0b000,
        AdcSampleResolution::B_14 => 0b001,
        AdcSampleResolution::B_12 => 0b010,
        AdcSampleResolution::B_10 => 0b011,
        AdcSampleResolution::B_8 => 0b100,
    }
}

impl AdcSampleResolution {
    /// The resolution drivers start from.
    pub fn default() -> (r: Self)
        ensures
            r == AdcSampleResolution::B_16,
    {
        AdcSampleResolution::B_16
    }
}

impl vstd::std_specs::convert::FromSpecImpl<AdcSampleResolution> for u8 {
    open spec fn obeys_from_spec() -> bool {
        true
    }

    open spec fn from_spec(v: AdcSampleResolution) -> u8 {
        adc_sample_resolution_bits(v)
    }
}

impl From<AdcSampleResolution> for u8 {
    fn from(val: AdcSampleResolution) -> (r: u8) {
        match val {
            AdcSampleResolution::B_16 => 0b000,
            AdcSampleResolution::B_14 => 0b001,
            AdcSampleResolution::B_12 => 0b010,
            AdcSampleResolution::B_10 => 0b011,
            AdcSampleResolution::B_8 => 0b100,
        }
    }
}

/// Stored ADC configuration, restored through a driver's restore
/// operation: sampling time and resolution.
#[derive(Clone, Copy, Debug, PartialEq, Eq, Structural)]
pub struct StoredConfig(pub AdcSampleTime, pub AdcSampleResolution);

} // verus!
