//! The settings, their codes and their defaults, and the register map.

use apds9306::{
    Apds9306Type, Config, Gain, InterruptConfig, InterruptMode, InterruptSource,
    MeasurementRate, Register, Resolution, VarianceThreshold, I2C_ADDR,
};

const RESOLUTIONS: [(Resolution, u8); 6] = [
    (Resolution::Bits20, 0b000),
    (Resolution::Bits19, 0b001),
    (Resolution::Bits18, 0b010),
    (Resolution::Bits17, 0b011),
    (Resolution::Bits16, 0b100),
    (Resolution::Bits13, 0b101),
];

const RATES: [(MeasurementRate, u8); 7] = [
    (MeasurementRate::Ms25, 0b000),
    (MeasurementRate::Ms50, 0b001),
    (MeasurementRate::Ms100, 0b010),
    (MeasurementRate::Ms200, 0b011),
    (MeasurementRate::Ms500, 0b100),
    (MeasurementRate::Ms1000, 0b101),
    (MeasurementRate::Ms2000, 0b110),
];

const GAINS: [(Gain, u8); 5] = [
    (Gain::Gain1, 0b000),
    (Gain::Gain3, 0b001),
    (Gain::Gain6, 0b010),
    (Gain::Gain9, 0b011),
    (Gain::Gain18, 0b100),
];

const VARIANCES: [(VarianceThreshold, u8); 8] = [
    (VarianceThreshold::Counts8, 0b000),
    (VarianceThreshold::Counts16, 0b001),
    (VarianceThreshold::Counts32, 0b010),
    (VarianceThreshold::Counts64, 0b011),
    (VarianceThreshold::Counts128, 0b100),
    (VarianceThreshold::Counts256, 0b101),
    (VarianceThreshold::Counts512, 0b110),
    (VarianceThreshold::Counts1024, 0b111),
];

const REGISTERS: [(Register, u8); 20] = [
    (Register::MainCtrl, 0x00),
    (Register::MeasRate, 0x04),
    (Register::Gain, 0x05),
    (Register::PartId, 0x06),
    (Register::MainStatus, 0x07),
    (Register::ClearData0, 0x0A),
    (Register::ClearData1, 0x0B),
    (Register::ClearData2, 0x0C),
    (Register::Data0, 0x0D),
    (Register::Data1, 0x0E),
    (Register::Data2, 0x0F),
    (Register::IntCfg, 0x19),
    (Register::IntPersistence, 0x1A),
    (Register::ThresUp0, 0x21),
    (Register::ThresUp1, 0x22),
    (Register::ThresUp2, 0x23),
    (Register::ThresLow0, 0x24),
    (Register::ThresLow1, 0x25),
    (Register::ThresLow2, 0x26),
    (Register::ThresVar, 0x27),
];

#[test]
fn bus_address_is_0x52() {
    assert_eq!(I2C_ADDR, 0x52);
}

#[test]
fn register_addresses_match_the_map() {
    for (register, addr) in REGISTERS {
        assert_eq!(register.addr(), addr);
    }
}

#[test]
fn register_is_found_at_its_address() {
    for (register, addr) in REGISTERS {
        assert_eq!(Register::at(addr), Some(register));
    }
}

#[test]
fn no_register_at_an_unmapped_address() {
    let mut known = 0;
    for addr in 0..=255u8 {
        match Register::at(addr) {
            Some(register) => {
                assert_eq!(register.addr(), addr);
                known += 1;
            }
            None => assert!(REGISTERS.iter().all(|(_, a)| *a != addr)),
        }
    }
    assert_eq!(known, 20);
    assert_eq!(Register::at(0x01), None);
    assert_eq!(Register::at(0x08), None);
    assert_eq!(Register::at(0x20), None);
    assert_eq!(Register::at(0x28), None);
    assert_eq!(Register::at(0xFF), None);
}

#[test]
fn register_mask_constants() {
    assert_eq!(apds9306::register::main_ctrl::SW_RESET, 1 << 4);
    assert_eq!(apds9306::register::main_ctrl::EN, 1 << 1);
    assert_eq!(apds9306::register::main_status::POWER_ON_STATUS, 1 << 5);
    assert_eq!(apds9306::register::main_status::INT_STATUS, 1 << 4);
    assert_eq!(apds9306::register::main_status::DATA_STATUS, 1 << 3);
    assert_eq!(apds9306::register::int_cfg::INT_SEL_MASK, 0x30);
    assert_eq!(apds9306::register::int_cfg::INT_SEL_SHIFT, 4);
    assert_eq!(apds9306::register::int_cfg::VAR_MODE, 1 << 3);
    assert_eq!(apds9306::register::int_cfg::VAR_MODE_SHIFT, 3);
    assert_eq!(apds9306::register::int_cfg::INT_EN, 1 << 2);
    assert_eq!(apds9306::register::int_cfg::INT_EN_SHIFT, 2);
    assert_eq!(apds9306::register::int_persistence::PERSIST_MASK, 0xF0);
    assert_eq!(apds9306::register::int_persistence::PERSIST_SHIFT, 4);
    assert_eq!(apds9306::register::int_persistence::PERSIST_MAX, 15);
}

#[test]
fn resolution_codes() {
    for (resolution, code) in RESOLUTIONS {
        assert_eq!(resolution.code(), code);
        assert_eq!(Resolution::from_code(code), Some(resolution));
    }
}

#[test]
fn resolution_rejects_undefined_codes() {
    for code in 6..=255u8 {
        assert_eq!(Resolution::from_code(code), None);
    }
}

#[test]
fn measurement_rate_codes() {
    for (rate, code) in RATES {
        assert_eq!(rate.code(), code);
        assert_eq!(MeasurementRate::from_code(code), Some(rate));
    }
}

#[test]
fn measurement_rate_rejects_undefined_codes() {
    for code in 7..=255u8 {
        assert_eq!(MeasurementRate::from_code(code), None);
    }
}

#[test]
fn gain_codes() {
    for (gain, code) in GAINS {
        assert_eq!(gain.code(), code);
        assert_eq!(Gain::from_code(code), Some(gain));
    }
}

#[test]
fn gain_rejects_undefined_codes() {
    for code in 5..=255u8 {
        assert_eq!(Gain::from_code(code), None);
    }
}

#[test]
fn interrupt_source_codes() {
    assert_eq!(InterruptSource::ClearChannel.code(), 0);
    assert_eq!(InterruptSource::AlsChannel.code(), 1);
    assert_eq!(InterruptSource::from_code(0), Some(InterruptSource::ClearChannel));
    assert_eq!(InterruptSource::from_code(1), Some(InterruptSource::AlsChannel));
    for code in 2..=255u8 {
        assert_eq!(InterruptSource::from_code(code), None);
    }
}

#[test]
fn interrupt_mode_codes() {
    assert_eq!(InterruptMode::Threshold.code(), 0);
    assert_eq!(InterruptMode::Variation.code(), 1);
    assert_eq!(InterruptMode::from_code(0), Some(InterruptMode::Threshold));
    assert_eq!(InterruptMode::from_code(1), Some(InterruptMode::Variation));
    for code in 2..=255u8 {
        assert_eq!(InterruptMode::from_code(code), None);
    }
}

#[test]
fn variance_threshold_codes() {
    for (threshold, code) in VARIANCES {
        assert_eq!(threshold.code(), code);
        assert_eq!(VarianceThreshold::from_code(code), Some(threshold));
    }
    for code in 8..=255u8 {
        assert_eq!(VarianceThreshold::from_code(code), None);
    }
}

#[test]
fn setting_defaults() {
    assert_eq!(Resolution::default(), Resolution::Bits18);
    assert_eq!(MeasurementRate::default(), MeasurementRate::Ms100);
    assert_eq!(Gain::default(), Gain::Gain3);
    assert_eq!(InterruptSource::default(), InterruptSource::AlsChannel);
    assert_eq!(InterruptMode::default(), InterruptMode::Threshold);
    assert_eq!(VarianceThreshold::default(), VarianceThreshold::Counts8);
}

#[test]
fn config_default() {
    let config = Config::default();
    assert_eq!(config.resolution, Resolution::Bits18);
    assert_eq!(config.measurement_rate, MeasurementRate::Ms100);
    assert_eq!(config.gain, Gain::Gain3);
}

#[test]
fn interrupt_config_default() {
    let config = InterruptConfig::default();
    assert_eq!(config.source, InterruptSource::AlsChannel);
    assert_eq!(config.mode, InterruptMode::Threshold);
    assert!(!config.enabled);
    assert_eq!(config.persistence, 0);
    assert_eq!(config.upper_threshold, 0xFFFFF);
    assert_eq!(config.upper_threshold, 1_048_575);
    assert_eq!(config.lower_threshold, 0);
    assert_eq!(config.variance_threshold, VarianceThreshold::Counts8);
}

#[test]
fn part_ids_of_the_variants() {
    assert_eq!(Apds9306Type::Apds9306.part_id(), 0xB1);
    assert_eq!(Apds9306Type::Apds9306_065.part_id(), 0xB3);
}
