//! Encoding of configuration values into register bytes, and decoding of
//! register bytes into measurements, status and configuration.
//!
//! All functions here are pure: they touch no bus and keep no state.

use crate::laws::{
    lemma_count_from_bytes, lemma_int_cfg_byte_fields, lemma_meas_rate_byte_fields,
    lemma_persistence_clamped, lemma_threshold_bytes_digits,
};
use crate::register::int_cfg;
use crate::register::int_persistence;
use crate::register::main_ctrl;
use crate::register::main_status;
use crate::types::{Config, Gain, InterruptConfig, MeasurementRate, Resolution, Status};
use vstd::prelude::*;

verus! {

/// Mask of the 20 bits that a threshold or a channel count has.
pub const COUNT_MASK: u32 = 0x000F_FFFF;

/// Mask of the three bits that hold a setting's code.
pub const CODE_MASK: u8 = 0x07;

impl Config {
    /// The byte for the MEAS_RATE register: the resolution code in bits 4 to
    /// 6, the rate code in bits 0 to 2.
    pub open spec fn spec_meas_rate_byte(self) -> u8 {
        (self.resolution.code() << 4u8) | self.measurement_rate.code()
    }

    /// The byte for the MEAS_RATE register: the resolution code in bits 4 to
    /// 6, the rate code in bits 0 to 2.
    #[verifier::when_used_as_spec(spec_meas_rate_byte)]
    pub fn meas_rate_byte(self) -> (b: u8)
        ensures
            b == self.spec_meas_rate_byte(),
            b == 16 * self.resolution.code() + self.measurement_rate.code(),
    {
        proof {
            lemma_meas_rate_byte_fields(self);
        }
        (self.resolution.code() << 4u8) | self.measurement_rate.code()
    }

    /// The byte for the GAIN register: the gain code, unshifted.
    pub open spec fn spec_gain_byte(self) -> u8 {
        self.gain.code()
    }

    /// The byte for the GAIN register: the gain code, unshifted.
    #[verifier::when_used_as_spec(spec_gain_byte)]
    pub fn gain_byte(self) -> (b: u8)
        ensures
            b == self.spec_gain_byte(),
    {
        self.gain.code()
    }

    /// The configuration that the bytes of the MEAS_RATE and GAIN registers
    /// stand for. Bits outside the three fields are ignored; a field that
    /// holds a code the device does not define gives `None`.
    pub open spec fn spec_from_registers(meas_rate: u8, gain: u8) -> Option<Config> {
        match (
            Resolution::from_code((meas_rate >> 4u8) & CODE_MASK),
            MeasurementRate::from_code(meas_rate & CODE_MASK),
            Gain::from_code(gain & CODE_MASK),
        ) {
            (Some(resolution), Some(measurement_rate), Some(gain)) => Some(
                Config { resolution, measurement_rate, gain },
            ),
            _ => None,
        }
    }

    /// The configuration that the bytes of the MEAS_RATE and GAIN registers
    /// stand for. Bits outside the three fields are ignored; a field that
    /// holds a code the device does not define gives `None`.
    #[verifier::when_used_as_spec(spec_from_registers)]
    pub fn from_registers(meas_rate: u8, gain: u8) -> (r: Option<Config>)
        ensures
            r == Config::spec_from_registers(meas_rate, gain),
    {
        let resolution = Resolution::from_code((meas_rate >> 4u8) & CODE_MASK);
        let measurement_rate = MeasurementRate::from_code(meas_rate & CODE_MASK);
        let gain = Gain::from_code(gain & CODE_MASK);
        match (resolution, measurement_rate, gain) {
            (Some(resolution), Some(measurement_rate), Some(gain)) => Some(
                Config { resolution, measurement_rate, gain },
            ),
            _ => None,
        }
    }
}

/// The persistence count that the device is given for a requested count:
/// the count itself up to 15, and 15 for every larger one.
pub open spec fn spec_clamp_persistence(persistence: u8) -> u8 {
    if persistence > int_persistence::PERSIST_MAX {
        int_persistence::PERSIST_MAX
    } else {
        persistence
    }
}

/// The three register bytes of a threshold, least significant first: the
/// low 20 bits of the value, with the upper four bits of the last byte zero.
pub open spec fn spec_threshold_bytes(threshold: u32) -> Seq<u8> {
    let value = threshold & COUNT_MASK;
    seq![
        (value & 0xFF) as u8,
        ((value >> 8u32) & 0xFF) as u8,
        ((value >> 16u32) & 0x0F) as u8,
    ]
}

/// The three register bytes of a threshold, least significant first: the
/// low 20 bits of the value, with the upper four bits of the last byte zero.
pub fn threshold_bytes(threshold: u32) -> (bytes: [u8; 3])
    ensures
        bytes@ == spec_threshold_bytes(threshold),
        bytes[0] + 256 * bytes[1] + 65536 * bytes[2] == threshold % 0x10_0000,
        bytes[2] <= 0x0F,
{
    proof {
        lemma_threshold_bytes_digits(threshold);
    }
    let value: u32 = threshold & COUNT_MASK;
    assert((value & 0xFF) <= 0xFF) by (bit_vector);
    assert(((value >> 8u32) & 0xFF) <= 0xFF) by (bit_vector);
    assert(((value >> 16u32) & 0x0F) <= 0xFF) by (bit_vector);
    let bytes = [
        (value & 0xFF) as u8,
        ((value >> 8u32) & 0xFF) as u8,
        ((value >> 16u32) & 0x0F) as u8,
    ];
    bytes
}

/// The 20-bit value held in three register bytes, least significant first.
/// The upper four bits of the last byte are reserved and ignored.
pub open spec fn spec_count_from_bytes(b0: u8, b1: u8, b2: u8) -> u32 {
    (b0 as u32) | ((b1 as u32) << 8u32) | (((b2 as u32) & 0x0F) << 16u32)
}

/// The 20-bit value held in three register bytes, least significant first.
/// The upper four bits of the last byte are reserved and ignored.
pub fn count_from_bytes(bytes: [u8; 3]) -> (count: u32)
    ensures
        count == spec_count_from_bytes(bytes[0], bytes[1], bytes[2]),
        count == bytes[0] + 256 * bytes[1] + 65536 * (bytes[2] % 16),
        count <= COUNT_MASK,
{
    let b0: u8 = bytes[0];
    let b1: u8 = bytes[1];
    let b2: u8 = bytes[2];
    proof {
        lemma_count_from_bytes(b0, b1, b2);
    }
    (b0 as u32) | ((b1 as u32) << 8u32) | (((b2 as u32) & 0x0F) << 16u32)
}

impl InterruptConfig {
    /// The byte for the INT_CFG register: the source code in bits 4 and 5,
    /// the mode code in bit 3, the enable flag in bit 2.
    pub open spec fn spec_int_cfg_byte(self) -> u8 {
        let source = self.source.code();
        let mode = self.mode.code();
        let enabled = if self.enabled {
            1u8
        } else {
            0u8
        };
        (source << int_cfg::INT_SEL_SHIFT) | (mode << int_cfg::VAR_MODE_SHIFT) | (enabled
            << int_cfg::INT_EN_SHIFT)
    }

    /// The byte for the INT_CFG register: the source code in bits 4 and 5,
    /// the mode code in bit 3, the enable flag in bit 2.
    #[verifier::when_used_as_spec(spec_int_cfg_byte)]
    pub fn int_cfg_byte(self) -> (b: u8)
        ensures
            b == self.spec_int_cfg_byte(),
            b == 16 * self.source.code() + 8 * self.mode.code() + (if self.enabled {
                4int
            } else {
                0int
            }),
    {
        proof {
            lemma_int_cfg_byte_fields(self);
        }
        let source: u8 = self.source.code();
        let mode: u8 = self.mode.code();
        let enabled: u8 = if self.enabled {
            1
        } else {
            0
        };
        (source << int_cfg::INT_SEL_SHIFT) | (mode << int_cfg::VAR_MODE_SHIFT) | (enabled
            << int_cfg::INT_EN_SHIFT)
    }

    /// The byte for the INT_PERSISTENCE register: the persistence count,
    /// at most 15, in bits 4 to 7.
    pub open spec fn spec_int_persistence_byte(self) -> u8 {
        spec_clamp_persistence(self.persistence) << int_persistence::PERSIST_SHIFT
    }

    /// The byte for the INT_PERSISTENCE register: the persistence count,
    /// at most 15, in bits 4 to 7.
    #[verifier::when_used_as_spec(spec_int_persistence_byte)]
    pub fn int_persistence_byte(self) -> (b: u8)
        ensures
            b == self.spec_int_persistence_byte(),
            b == 16 * spec_clamp_persistence(self.persistence),
    {
        proof {
            lemma_persistence_clamped(self);
        }
        let persistence: u8 = if self.persistence > int_persistence::PERSIST_MAX {
            int_persistence::PERSIST_MAX
        } else {
            self.persistence
        };
        persistence << int_persistence::PERSIST_SHIFT
    }

    /// The byte for the variance threshold register: the code, unshifted.
    pub open spec fn spec_variance_byte(self) -> u8 {
        self.variance_threshold.code()
    }

    /// The byte for the variance threshold register: the code, unshifted.
    #[verifier::when_used_as_spec(spec_variance_byte)]
    pub fn variance_byte(self) -> (b: u8)
        ensures
            b == self.spec_variance_byte(),
    {
        self.variance_threshold.code()
    }
}

impl Status {
    /// The flags that a byte of the MAIN_STATUS register holds.
    pub open spec fn spec_from_byte(status: u8) -> Status {
        Status {
            power_on: status & main_status::POWER_ON_STATUS != 0,
            interrupt: status & main_status::INT_STATUS != 0,
            data_ready: status & main_status::DATA_STATUS != 0,
        }
    }

    /// The flags that a byte of the MAIN_STATUS register holds.
    #[verifier::when_used_as_spec(spec_from_byte)]
    pub fn from_byte(status: u8) -> (s: Status)
        ensures
            s == Status::spec_from_byte(status),
    {
        Status {
            power_on: (status & main_status::POWER_ON_STATUS) != 0,
            interrupt: (status & main_status::INT_STATUS) != 0,
            data_ready: (status & main_status::DATA_STATUS) != 0,
        }
    }
}

/// A MAIN_CTRL byte with the enable bit set and every other bit kept.
pub open spec fn spec_with_enable(control: u8) -> u8 {
    control | main_ctrl::EN
}

/// A MAIN_CTRL byte with the enable bit set and every other bit kept.
#[verifier::when_used_as_spec(spec_with_enable)]
pub fn with_enable(control: u8) -> (b: u8)
    ensures
        b == spec_with_enable(control),
{
    control | main_ctrl::EN
}

/// A MAIN_CTRL byte with the enable bit cleared and every other bit kept.
pub open spec fn spec_without_enable(control: u8) -> u8 {
    control & !main_ctrl::EN
}

/// A MAIN_CTRL byte with the enable bit cleared and every other bit kept.
#[verifier::when_used_as_spec(spec_without_enable)]
pub fn without_enable(control: u8) -> (b: u8)
    ensures
        b == spec_without_enable(control),
{
    control & !main_ctrl::EN
}

} // verus!
