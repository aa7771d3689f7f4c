//! Laws of the encodings: what holds of every configuration value and of
//! every register byte.

use crate::codec::{
    spec_clamp_persistence, spec_count_from_bytes, spec_threshold_bytes, spec_with_enable,
    spec_without_enable, COUNT_MASK,
};
use crate::exchange::{ControlUpdate, StatusFlag};
use crate::register::main_ctrl;
use crate::types::{
    Config, Gain, InterruptConfig, InterruptMode, InterruptSource, MeasurementRate, Resolution,
    Status, VarianceThreshold,
};
use vstd::prelude::*;

verus! {

/// Every resolution has a three-bit code, and the code stands for that
/// resolution and no other.
pub proof fn lemma_resolution_code(resolution: Resolution)
    ensures
        resolution.code() <= 5,
        Resolution::from_code(resolution.code()) == Some(resolution),
{
}

/// Every measurement rate has a three-bit code, and the code stands for
/// that rate and no other.
pub proof fn lemma_measurement_rate_code(rate: MeasurementRate)
    ensures
        rate.code() <= 6,
        MeasurementRate::from_code(rate.code()) == Some(rate),
{
}

/// Every gain has a three-bit code, and the code stands for that gain and
/// no other.
pub proof fn lemma_gain_code(gain: Gain)
    ensures
        gain.code() <= 4,
        Gain::from_code(gain.code()) == Some(gain),
{
}

/// Every variance threshold has a three-bit code, and the code stands for
/// that threshold and no other.
pub proof fn lemma_variance_threshold_code(threshold: VarianceThreshold)
    ensures
        threshold.code() <= 7,
        VarianceThreshold::from_code(threshold.code()) == Some(threshold),
{
}

/// The codes of the interrupt source and of the interrupt mode are single
/// bits, and each stands for its setting and no other.
pub proof fn lemma_interrupt_codes(source: InterruptSource, mode: InterruptMode)
    ensures
        source.code() <= 1,
        mode.code() <= 1,
        InterruptSource::from_code(source.code()) == Some(source),
        InterruptMode::from_code(mode.code()) == Some(mode),
{
}

/// A setting that comes out of a code has that code: no integer outside
/// the defined codes stands for a setting.
pub proof fn lemma_from_code_sound(code: u8)
    ensures
        Resolution::from_code(code) matches Some(v) ==> v.code() == code,
        MeasurementRate::from_code(code) matches Some(v) ==> v.code() == code,
        Gain::from_code(code) matches Some(v) ==> v.code() == code,
        InterruptSource::from_code(code) matches Some(v) ==> v.code() == code,
        InterruptMode::from_code(code) matches Some(v) ==> v.code() == code,
        VarianceThreshold::from_code(code) matches Some(v) ==> v.code() == code,
{
}

/// The MEAS_RATE byte holds the resolution code in bits 4 to 6 and the rate
/// code in bits 0 to 2, with bits 3 and 7 zero: it is sixteen times the
/// resolution code plus the rate code.
pub proof fn lemma_meas_rate_byte_fields(config: Config)
    ensures
        (config.meas_rate_byte() >> 4u8) & 0x07 == config.resolution.code(),
        config.meas_rate_byte() & 0x07 == config.measurement_rate.code(),
        config.meas_rate_byte() & 0x88 == 0,
        config.meas_rate_byte() == 16 * config.resolution.code() + config.measurement_rate.code(),
{
    let resolution = config.resolution.code();
    let rate = config.measurement_rate.code();
    lemma_resolution_code(config.resolution);
    lemma_measurement_rate_code(config.measurement_rate);
    assert({
        let byte = (resolution << 4u8) | rate;
        &&& (byte >> 4u8) & 0x07 == resolution
        &&& byte & 0x07 == rate
        &&& byte & 0x88 == 0
        &&& byte == 16 * resolution + rate
    }) by (bit_vector)
        requires
            resolution <= 7,
            rate <= 7,
    ;
}

/// Decoding the two bytes that a measurement configuration is written as
/// gives the configuration back: resolution, rate and gain all survive the
/// round trip.
pub proof fn lemma_config_round_trip(config: Config)
    ensures
        Config::from_registers(config.meas_rate_byte(), config.gain_byte()) == Some(config),
{
    lemma_meas_rate_byte_fields(config);
    lemma_resolution_code(config.resolution);
    lemma_measurement_rate_code(config.measurement_rate);
    lemma_gain_code(config.gain);
    let gain = config.gain.code();
    assert(gain & 0x07 == gain) by (bit_vector)
        requires
            gain <= 7,
    ;
}

/// Two measurement configurations that are written as the same two bytes
/// are the same configuration.
pub proof fn lemma_config_bytes_injective(a: Config, b: Config)
    requires
        a.meas_rate_byte() == b.meas_rate_byte(),
        a.gain_byte() == b.gain_byte(),
    ensures
        a == b,
{
    lemma_config_round_trip(a);
    lemma_config_round_trip(b);
}

/// The three bytes of a threshold decode to the low 20 bits of the
/// threshold, whatever its upper 12 bits were, and the last byte has its
/// upper four bits zero.
pub proof fn lemma_threshold_round_trip(threshold: u32)
    ensures
        spec_threshold_bytes(threshold).len() == 3,
        spec_threshold_bytes(threshold)[2] & 0xF0 == 0,
        ({
            let bytes = spec_threshold_bytes(threshold);
            spec_count_from_bytes(bytes[0], bytes[1], bytes[2])
        }) == threshold & COUNT_MASK,
{
    assert({
        let value = threshold & 0x000F_FFFFu32;
        let b0 = (value & 0xFF) as u8;
        let b1 = ((value >> 8u32) & 0xFF) as u8;
        let b2 = ((value >> 16u32) & 0x0F) as u8;
        &&& b2 & 0xF0 == 0
        &&& (b0 as u32) | ((b1 as u32) << 8u32) | (((b2 as u32) & 0x0F) << 16u32) == value
    }) by (bit_vector);
}

/// A threshold and its low 20 bits are written as the same three bytes:
/// what lies above bit 19 never reaches the device.
pub proof fn lemma_threshold_masked(threshold: u32)
    ensures
        spec_threshold_bytes(threshold) == spec_threshold_bytes(threshold & COUNT_MASK),
{
    assert((threshold & 0x000F_FFFFu32) & 0x000F_FFFFu32 == threshold & 0x000F_FFFFu32)
        by (bit_vector);
}

/// The bytes of a threshold are the base-256 digits of its low 20 bits:
/// the first byte plus 256 times the second plus 65536 times the third is
/// the threshold modulo 2^20, and the third byte is at most 15.
pub proof fn lemma_threshold_bytes_digits(threshold: u32)
    ensures
        spec_threshold_bytes(threshold)[2] <= 0x0F,
        ({
            let bytes = spec_threshold_bytes(threshold);
            bytes[0] + 256 * bytes[1] + 65536 * bytes[2]
        }) == threshold % 0x10_0000,
        threshold & COUNT_MASK == threshold % 0x10_0000,
{
    assert({
        let value = threshold & 0x000F_FFFFu32;
        let b0 = (value & 0xFF) as u8;
        let b1 = ((value >> 8u32) & 0xFF) as u8;
        let b2 = ((value >> 16u32) & 0x0F) as u8;
        &&& b2 <= 0x0F
        &&& b0 + 256 * b1 + 65536 * b2 == threshold % 0x10_0000u32
        &&& value == threshold % 0x10_0000u32
    }) by (bit_vector);
}

/// A count decoded from three bytes has 20 bits, ignores the upper four
/// bits of the last byte, and is the first byte plus 256 times the second
/// plus 65536 times the low four bits of the third.
pub proof fn lemma_count_from_bytes(b0: u8, b1: u8, b2: u8)
    ensures
        spec_count_from_bytes(b0, b1, b2) <= COUNT_MASK,
        spec_count_from_bytes(b0, b1, b2) == spec_count_from_bytes(b0, b1, b2 & 0x0F),
        spec_count_from_bytes(b0, b1, b2) == b0 + 256 * b1 + 65536 * (b2 % 16),
{
    assert({
        let count = (b0 as u32) | ((b1 as u32) << 8u32) | (((b2 as u32) & 0x0F) << 16u32);
        &&& count <= 0x000F_FFFFu32
        &&& count == (b0 as u32) | ((b1 as u32) << 8u32) | ((((b2 & 0x0F) as u32) & 0x0F)
            << 16u32)
        &&& count == b0 + 256 * b1 + 65536 * (b2 % 16)
    }) by (bit_vector);
}

/// The upper and the lower threshold of an interrupt configuration are
/// written to the device as bytes that decode to their low 20 bits.
pub proof fn lemma_interrupt_thresholds_round_trip(config: InterruptConfig)
    ensures
        ({
            let upper = spec_threshold_bytes(config.upper_threshold);
            spec_count_from_bytes(upper[0], upper[1], upper[2])
        }) == config.upper_threshold & COUNT_MASK,
        ({
            let lower = spec_threshold_bytes(config.lower_threshold);
            spec_count_from_bytes(lower[0], lower[1], lower[2])
        }) == config.lower_threshold & COUNT_MASK,
{
    lemma_threshold_round_trip(config.upper_threshold);
    lemma_threshold_round_trip(config.lower_threshold);
}

/// The INT_PERSISTENCE byte of a persistence count is that of the clamped
/// count: every count of 15 or more is written as `0xF0`. The byte holds
/// the clamped count in its upper four bits and zero in its lower four.
pub proof fn lemma_persistence_clamped(config: InterruptConfig)
    ensures
        config.int_persistence_byte() == (InterruptConfig {
            persistence: spec_clamp_persistence(config.persistence),
            ..config
        }).int_persistence_byte(),
        config.persistence >= 15 ==> config.int_persistence_byte() == 0xF0,
        config.int_persistence_byte() >> 4u8 == spec_clamp_persistence(config.persistence),
        config.int_persistence_byte() & 0x0F == 0,
        config.int_persistence_byte() == 16 * spec_clamp_persistence(config.persistence),
{
    let clamped = spec_clamp_persistence(config.persistence);
    assert({
        let byte = clamped << 4u8;
        &&& byte >> 4u8 == clamped
        &&& byte & 0x0F == 0
        &&& byte == 16 * clamped
    }) by (bit_vector)
        requires
            clamped <= 15,
    ;
}

/// Two persistence counts are written as the same byte exactly when they
/// clamp to the same count: counts up to 15 all differ, and all counts from
/// 15 on agree.
pub proof fn lemma_persistence_bytes_agree(a: InterruptConfig, b: InterruptConfig)
    ensures
        a.int_persistence_byte() == b.int_persistence_byte() <==> spec_clamp_persistence(
            a.persistence,
        ) == spec_clamp_persistence(b.persistence),
{
    lemma_persistence_clamped(a);
    lemma_persistence_clamped(b);
}

/// The INT_CFG byte holds the source code in bit 4, the mode code in bit 3
/// and the enable flag in bit 2; every other bit is zero.
pub proof fn lemma_int_cfg_byte_fields(config: InterruptConfig)
    ensures
        (config.int_cfg_byte() >> 4u8) & 0x03 == config.source.code(),
        (config.int_cfg_byte() >> 3u8) & 0x01 == config.mode.code(),
        (config.int_cfg_byte() & 0x04 != 0) == config.enabled,
        config.int_cfg_byte() & 0xE3 == 0,
        config.int_cfg_byte() == 16 * config.source.code() + 8 * config.mode.code() + (
        if config.enabled {
            4int
        } else {
            0int
        }),
{
    let source = config.source.code();
    let mode = config.mode.code();
    let enabled = if config.enabled {
        1u8
    } else {
        0u8
    };
    lemma_interrupt_codes(config.source, config.mode);
    assert({
        let byte = (source << 4u8) | (mode << 3u8) | (enabled << 2u8);
        &&& (byte >> 4u8) & 0x03 == source
        &&& (byte >> 3u8) & 0x01 == mode
        &&& (byte & 0x04 != 0) == (enabled == 1)
        &&& byte & 0xE3 == 0
        &&& byte == 16 * source + 8 * mode + 4 * enabled
    }) by (bit_vector)
        requires
            source <= 1,
            mode <= 1,
            enabled <= 1,
    ;
}

/// The three flags that a status byte decodes to are the flags that are
/// read one by one, and they depend on bits 3 to 5 of the byte alone.
pub proof fn lemma_status_flags(status: u8)
    ensures
        Status::from_byte(status).power_on == StatusFlag::PowerOn.is_set(status),
        Status::from_byte(status).interrupt == StatusFlag::Interrupt.is_set(status),
        Status::from_byte(status).data_ready == StatusFlag::DataReady.is_set(status),
        Status::from_byte(status) == Status::from_byte(status & 0x38),
{
    assert({
        &&& (status & 0x38) & 0x20 == status & 0x20
        &&& (status & 0x38) & 0x10 == status & 0x10
        &&& (status & 0x38) & 0x08 == status & 0x08
    }) by (bit_vector);
}

/// Setting the enable bit sets that bit and keeps the seven others;
/// clearing it clears that bit and keeps the seven others.
pub proof fn lemma_enable_bit(control: u8)
    ensures
        spec_with_enable(control) & main_ctrl::EN == main_ctrl::EN,
        spec_with_enable(control) & !main_ctrl::EN == control & !main_ctrl::EN,
        spec_without_enable(control) & main_ctrl::EN == 0,
        spec_without_enable(control) & !main_ctrl::EN == control & !main_ctrl::EN,
{
    assert({
        &&& (control | 0x02u8) & 0x02u8 == 0x02u8
        &&& (control | 0x02u8) & !0x02u8 == control & !0x02u8
        &&& (control & !0x02u8) & 0x02u8 == 0
        &&& (control & !0x02u8) & !0x02u8 == control & !0x02u8
    }) by (bit_vector);
}

/// Enabling and then disabling leaves MAIN_CTRL as it was before, bit for
/// bit, but for the enable bit, which ends cleared: if the device holds
/// what the enable wrote when the disable reads it, the disable writes the
/// byte that the enable read, with the enable bit cleared.
pub proof fn lemma_enable_then_disable(control: u8)
    ensures
        ControlUpdate::Disable.apply(ControlUpdate::Enable.apply(control)) == control
            & !main_ctrl::EN,
        ControlUpdate::Disable.apply(ControlUpdate::Enable.apply(control)) == ControlUpdate::Disable.apply(
            control,
        ),
        control & main_ctrl::EN == 0 ==> ControlUpdate::Disable.apply(
            ControlUpdate::Enable.apply(control),
        ) == control,
{
    assert({
        &&& (control | 0x02u8) & !0x02u8 == control & !0x02u8
        &&& (control & 0x02u8 == 0 ==> control & !0x02u8 == control)
    }) by (bit_vector);
}

/// Disabling and then enabling leaves MAIN_CTRL as it was before but for
/// the enable bit, which ends set.
pub proof fn lemma_disable_then_enable(control: u8)
    ensures
        ControlUpdate::Enable.apply(ControlUpdate::Disable.apply(control)) == control
            | main_ctrl::EN,
{
    assert((control & !0x02u8) | 0x02u8 == control | 0x02u8) by (bit_vector);
}

} // verus!
