//! The encoding of configurations into register bytes and the decoding of
//! register bytes.

use apds9306::codec::{
    count_from_bytes, threshold_bytes, with_enable, without_enable, CODE_MASK, COUNT_MASK,
};
use apds9306::{
    Config, Gain, InterruptConfig, InterruptMode, InterruptSource, MeasurementRate, Resolution,
    Status, VarianceThreshold,
};

fn every_config() -> Vec<Config> {
    let resolutions = [
        Resolution::Bits20,
        Resolution::Bits19,
        Resolution::Bits18,
        Resolution::Bits17,
        Resolution::Bits16,
        Resolution::Bits13,
    ];
    let rates = [
        MeasurementRate::Ms25,
        MeasurementRate::Ms50,
        MeasurementRate::Ms100,
        MeasurementRate::Ms200,
        MeasurementRate::Ms500,
        MeasurementRate::Ms1000,
        MeasurementRate::Ms2000,
    ];
    let gains = [Gain::Gain1, Gain::Gain3, Gain::Gain6, Gain::Gain9, Gain::Gain18];
    let mut all = Vec::new();
    for resolution in resolutions {
        for measurement_rate in rates {
            for gain in gains {
                all.push(Config { resolution, measurement_rate, gain });
            }
        }
    }
    all
}

fn with_persistence(persistence: u8) -> InterruptConfig {
    InterruptConfig { persistence, ..InterruptConfig::default() }
}

fn some_thresholds() -> Vec<u32> {
    let mut values = vec![
        0,
        1,
        0xFF,
        0x100,
        0xFFFF,
        0x1_0000,
        0xF_FFFF,
        0x10_0000,
        0x10_0001,
        0x0A_1234,
        0x1234_5678,
        0x7FFF_FFFF,
        0x8000_0000,
        0xFFF0_0000,
        0xFFFF_FFFF,
    ];
    let mut value: u32 = 0x9E37_79B9;
    for _ in 0..2000 {
        value = value.wrapping_mul(1_664_525).wrapping_add(1_013_904_223);
        values.push(value);
    }
    values
}

#[test]
fn mask_constants() {
    assert_eq!(COUNT_MASK, 0xFFFFF);
    assert_eq!(CODE_MASK, 0b111);
}

#[test]
fn meas_rate_byte_of_the_default_config() {
    assert_eq!(Config::default().meas_rate_byte(), 0x22);
}

#[test]
fn meas_rate_byte_packs_resolution_above_rate() {
    let config = Config {
        resolution: Resolution::Bits13,
        measurement_rate: MeasurementRate::Ms2000,
        gain: Gain::Gain1,
    };
    assert_eq!(config.meas_rate_byte(), 0x56);
    let config = Config {
        resolution: Resolution::Bits20,
        measurement_rate: MeasurementRate::Ms25,
        gain: Gain::Gain18,
    };
    assert_eq!(config.meas_rate_byte(), 0x00);
    let config = Config {
        resolution: Resolution::Bits16,
        measurement_rate: MeasurementRate::Ms50,
        gain: Gain::Gain18,
    };
    assert_eq!(config.meas_rate_byte(), 0x41);
}

#[test]
fn meas_rate_byte_is_sixteen_times_resolution_plus_rate() {
    for config in every_config() {
        assert_eq!(
            config.meas_rate_byte(),
            16 * config.resolution.code() + config.measurement_rate.code()
        );
        assert_eq!(config.meas_rate_byte() & 0x88, 0);
    }
}

#[test]
fn gain_byte_is_the_gain_code() {
    assert_eq!(Config::default().gain_byte(), 0x01);
    let config = Config { gain: Gain::Gain18, ..Config::default() };
    assert_eq!(config.gain_byte(), 0x04);
    let config = Config { gain: Gain::Gain1, ..Config::default() };
    assert_eq!(config.gain_byte(), 0x00);
}

#[test]
fn config_survives_the_round_trip_through_its_bytes() {
    let all = every_config();
    assert_eq!(all.len(), 210);
    for config in all {
        let decoded = Config::from_registers(config.meas_rate_byte(), config.gain_byte());
        assert_eq!(decoded, Some(config));
        let decoded = decoded.unwrap();
        assert_eq!(decoded.resolution.code(), config.resolution.code());
        assert_eq!(decoded.measurement_rate.code(), config.measurement_rate.code());
        assert_eq!(decoded.gain.code(), config.gain.code());
    }
}

#[test]
fn configs_with_the_same_bytes_are_the_same() {
    let all = every_config();
    for a in &all {
        for b in &all {
            let same_bytes =
                a.meas_rate_byte() == b.meas_rate_byte() && a.gain_byte() == b.gain_byte();
            assert_eq!(same_bytes, a == b);
        }
    }
}

#[test]
fn from_registers_decodes_the_default_bytes() {
    assert_eq!(Config::from_registers(0x22, 0x01), Some(Config::default()));
}

#[test]
fn from_registers_ignores_reserved_bits() {
    assert_eq!(Config::from_registers(0xAA, 0xF9), Some(Config::default()));
    assert_eq!(
        Config::from_registers(0x88, 0x08),
        Some(Config {
            resolution: Resolution::Bits20,
            measurement_rate: MeasurementRate::Ms25,
            gain: Gain::Gain1,
        })
    );
}

#[test]
fn from_registers_rejects_undefined_codes() {
    assert_eq!(Config::from_registers(0x62, 0x01), None);
    assert_eq!(Config::from_registers(0x72, 0x01), None);
    assert_eq!(Config::from_registers(0x27, 0x01), None);
    assert_eq!(Config::from_registers(0x22, 0x05), None);
    assert_eq!(Config::from_registers(0x22, 0x07), None);
    assert_eq!(Config::from_registers(0xFF, 0xFF), None);
}

#[test]
fn int_cfg_byte_of_the_default_config() {
    assert_eq!(InterruptConfig::default().int_cfg_byte(), 0b0001_0000);
}

#[test]
fn int_cfg_byte_of_every_combination() {
    let sources = [(InterruptSource::ClearChannel, 0x00), (InterruptSource::AlsChannel, 0x10)];
    let modes = [(InterruptMode::Threshold, 0x00), (InterruptMode::Variation, 0x08)];
    let enables = [(false, 0x00), (true, 0x04)];
    for (source, source_bits) in sources {
        for (mode, mode_bits) in modes {
            for (enabled, enable_bits) in enables {
                let config = InterruptConfig { source, mode, enabled, ..InterruptConfig::default() };
                assert_eq!(config.int_cfg_byte(), source_bits | mode_bits | enable_bits);
            }
        }
    }
}

#[test]
fn int_cfg_byte_does_not_depend_on_the_other_fields() {
    let config = InterruptConfig {
        source: InterruptSource::AlsChannel,
        mode: InterruptMode::Variation,
        enabled: true,
        persistence: 200,
        upper_threshold: 0xFFFF_FFFF,
        lower_threshold: 0x1234_5678,
        variance_threshold: VarianceThreshold::Counts1024,
    };
    assert_eq!(config.int_cfg_byte(), 0b0001_1100);
}

#[test]
fn persistence_byte_holds_the_count_in_the_upper_nibble() {
    assert_eq!(with_persistence(0).int_persistence_byte(), 0x00);
    assert_eq!(with_persistence(1).int_persistence_byte(), 0x10);
    assert_eq!(with_persistence(7).int_persistence_byte(), 0x70);
    assert_eq!(with_persistence(14).int_persistence_byte(), 0xE0);
    assert_eq!(with_persistence(15).int_persistence_byte(), 0xF0);
}

#[test]
fn persistence_above_15_is_clamped_to_15() {
    assert_eq!(
        with_persistence(20).int_persistence_byte(),
        with_persistence(15).int_persistence_byte()
    );
    assert_eq!(with_persistence(16).int_persistence_byte(), 0xF0);
    assert_eq!(with_persistence(20).int_persistence_byte(), 0xF0);
    assert_eq!(with_persistence(255).int_persistence_byte(), 0xF0);
    for persistence in 15..=255u8 {
        assert_eq!(with_persistence(persistence).int_persistence_byte(), 0xF0);
    }
}

#[test]
fn persistence_up_to_15_is_written_as_given() {
    for a in 0..=15u8 {
        assert_eq!(with_persistence(a).int_persistence_byte(), a << 4);
        assert_eq!(with_persistence(a).int_persistence_byte() >> 4, a);
        for b in 0..=15u8 {
            assert_eq!(
                with_persistence(a).int_persistence_byte()
                    == with_persistence(b).int_persistence_byte(),
                a == b
            );
        }
    }
    assert_ne!(
        with_persistence(14).int_persistence_byte(),
        with_persistence(15).int_persistence_byte()
    );
}

#[test]
fn variance_byte_is_the_code() {
    assert_eq!(InterruptConfig::default().variance_byte(), 0x00);
    let config = InterruptConfig {
        variance_threshold: VarianceThreshold::Counts1024,
        ..InterruptConfig::default()
    };
    assert_eq!(config.variance_byte(), 0x07);
    let config = InterruptConfig {
        variance_threshold: VarianceThreshold::Counts64,
        ..InterruptConfig::default()
    };
    assert_eq!(config.variance_byte(), 0x03);
}

#[test]
fn threshold_bytes_are_least_significant_first() {
    assert_eq!(threshold_bytes(0x0A_1234), [0x34, 0x12, 0x0A]);
    assert_eq!(threshold_bytes(0xF_FFFF), [0xFF, 0xFF, 0x0F]);
    assert_eq!(threshold_bytes(0), [0x00, 0x00, 0x00]);
    assert_eq!(threshold_bytes(1), [0x01, 0x00, 0x00]);
    assert_eq!(threshold_bytes(0x100), [0x00, 0x01, 0x00]);
    assert_eq!(threshold_bytes(0x1_0000), [0x00, 0x00, 0x01]);
}

#[test]
fn threshold_above_20_bits_is_masked() {
    assert_eq!(threshold_bytes(0xFFFF_FFFF), [0xFF, 0xFF, 0x0F]);
    assert_eq!(threshold_bytes(0x10_0000), [0x00, 0x00, 0x00]);
    assert_eq!(threshold_bytes(0x1234_5678), [0x78, 0x56, 0x04]);
    for threshold in some_thresholds() {
        assert_eq!(threshold_bytes(threshold), threshold_bytes(threshold & 0xFFFFF));
        assert_eq!(threshold_bytes(threshold)[2] & 0xF0, 0);
    }
}

#[test]
fn threshold_decodes_to_its_low_20_bits() {
    for threshold in some_thresholds() {
        assert_eq!(count_from_bytes(threshold_bytes(threshold)), threshold & 0xFFFFF);
    }
}

#[test]
fn every_20_bit_threshold_survives_the_round_trip() {
    for threshold in 0..=0xFFFFFu32 {
        assert_eq!(count_from_bytes(threshold_bytes(threshold)), threshold);
    }
}

#[test]
fn count_of_all_ones() {
    assert_eq!(count_from_bytes([0xFF, 0xFF, 0xFF]), 0xFFFFF);
    assert_eq!(count_from_bytes([0xFF, 0xFF, 0xFF]), 1_048_575);
}

#[test]
fn count_ignores_the_top_nibble_of_the_last_byte() {
    assert_eq!(count_from_bytes([0x00, 0x00, 0x10]), 0x00000);
    assert_eq!(count_from_bytes([0x00, 0x00, 0xF0]), 0);
    assert_eq!(count_from_bytes([0x34, 0x12, 0xFA]), 0x0A_1234);
}

#[test]
fn count_is_least_significant_byte_first() {
    assert_eq!(count_from_bytes([0x34, 0x12, 0x0A]), 0x0A_1234);
    assert_eq!(count_from_bytes([0x01, 0x00, 0x00]), 1);
    assert_eq!(count_from_bytes([0x00, 0x01, 0x00]), 256);
    assert_eq!(count_from_bytes([0x00, 0x00, 0x01]), 65_536);
    assert_eq!(count_from_bytes([0x00, 0x00, 0x00]), 0);
}

#[test]
fn count_never_exceeds_20_bits() {
    for b2 in 0..=255u8 {
        for b1 in [0x00u8, 0x5A, 0xFF] {
            for b0 in [0x00u8, 0xA5, 0xFF] {
                let count = count_from_bytes([b0, b1, b2]);
                assert!(count <= 0xFFFFF);
                assert_eq!(
                    count,
                    u32::from(b0) + 256 * u32::from(b1) + 65_536 * u32::from(b2 % 16)
                );
            }
        }
    }
}

#[test]
fn status_flags_of_a_byte() {
    let none = Status { power_on: false, interrupt: false, data_ready: false };
    assert_eq!(Status::from_byte(0x00), none);
    assert_eq!(Status::from_byte(0x20), Status { power_on: true, ..none });
    assert_eq!(Status::from_byte(0x10), Status { interrupt: true, ..none });
    assert_eq!(Status::from_byte(0x08), Status { data_ready: true, ..none });
    assert_eq!(
        Status::from_byte(0x38),
        Status { power_on: true, interrupt: true, data_ready: true }
    );
    assert_eq!(
        Status::from_byte(0xFF),
        Status { power_on: true, interrupt: true, data_ready: true }
    );
    assert_eq!(Status::from_byte(0x28), Status { power_on: true, data_ready: true, ..none });
}

#[test]
fn status_ignores_the_other_bits() {
    let none = Status { power_on: false, interrupt: false, data_ready: false };
    assert_eq!(Status::from_byte(0xC7), none);
    for status in 0..=255u8 {
        assert_eq!(Status::from_byte(status), Status::from_byte(status & 0x38));
    }
}

#[test]
fn with_enable_sets_bit_1_only() {
    assert_eq!(with_enable(0x00), 0x02);
    assert_eq!(with_enable(0x02), 0x02);
    assert_eq!(with_enable(0x10), 0x12);
    assert_eq!(with_enable(0xFD), 0xFF);
    for control in 0..=255u8 {
        assert_eq!(with_enable(control) & 0x02, 0x02);
        assert_eq!(with_enable(control) & 0xFD, control & 0xFD);
    }
}

#[test]
fn without_enable_clears_bit_1_only() {
    assert_eq!(without_enable(0x02), 0x00);
    assert_eq!(without_enable(0x00), 0x00);
    assert_eq!(without_enable(0x12), 0x10);
    assert_eq!(without_enable(0xFF), 0xFD);
    for control in 0..=255u8 {
        assert_eq!(without_enable(control) & 0x02, 0x00);
        assert_eq!(without_enable(control) & 0xFD, control & 0xFD);
    }
}

#[test]
fn enable_then_disable_restores_the_other_bits() {
    for control in 0..=255u8 {
        assert_eq!(without_enable(with_enable(control)), control & 0xFD);
        assert_eq!(with_enable(without_enable(control)), control | 0x02);
    }
}
