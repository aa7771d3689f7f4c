//! Status and measurement data as text.

use apds9306::{MeasurementData, Status};

#[test]
fn status_as_text() {
    let status = Status { power_on: true, interrupt: false, data_ready: true };
    assert_eq!(
        status.to_string(),
        "Status { power_on: true, interrupt: false, data_ready: true }"
    );
    let status = Status { power_on: false, interrupt: true, data_ready: false };
    assert_eq!(
        status.to_string(),
        "Status { power_on: false, interrupt: true, data_ready: false }"
    );
}

#[test]
fn status_as_text_for_every_combination() {
    for power_on in [false, true] {
        for interrupt in [false, true] {
            for data_ready in [false, true] {
                let status = Status { power_on, interrupt, data_ready };
                assert_eq!(
                    status.to_string(),
                    format!(
                        "Status {{ power_on: {}, interrupt: {}, data_ready: {} }}",
                        power_on, interrupt, data_ready
                    )
                );
            }
        }
    }
}

#[test]
fn measurement_data_as_text() {
    let data = MeasurementData { als: 1_048_575, clear: 0 };
    assert_eq!(data.to_string(), "MeasurementData { als: 1048575, clear: 0 }");
    let data = MeasurementData { als: 7, clear: 660_020 };
    assert_eq!(data.to_string(), "MeasurementData { als: 7, clear: 660020 }");
}

#[test]
fn measurement_data_counts_are_in_decimal() {
    let values = [
        0u32,
        1,
        9,
        10,
        11,
        99,
        100,
        101,
        1_000,
        65_535,
        65_536,
        999_999,
        1_000_000,
        1_048_575,
        4_294_967_295,
    ];
    for als in values {
        for clear in values {
            let data = MeasurementData { als, clear };
            assert_eq!(
                data.to_string(),
                format!("MeasurementData {{ als: {}, clear: {} }}", als, clear)
            );
        }
    }
}
