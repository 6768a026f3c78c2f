use iot_temperature_monitor::decimal::tenths_to_string;
use iot_temperature_monitor::dht11_extension::{normalize, RawMeasurement, SensorData};
use iot_temperature_monitor::polling::PollingLoop;

fn reading(temperature: i16, humidity: u16) -> SensorData {
    SensorData { temperature_tenths: temperature, humidity_tenths: humidity }
}

#[test]
fn raw_measurement_becomes_tenths_reading() {
    let r = normalize(Ok(RawMeasurement { temperature: 231, humidity: 655 }));
    let d = r.unwrap();
    assert_eq!(d, reading(231, 655));
    assert_eq!(d.temperature_tenths as f32 / 10.0, 23.1f32);
    assert_eq!(d.humidity_tenths as f32 / 10.0, 65.5f32);
    assert_eq!(d.temperature_text(), "23.1");
    assert_eq!(d.humidity_text(), "65.5");
}

#[test]
fn zero_measurement_is_a_reading() {
    let r = normalize(Ok(RawMeasurement { temperature: 0, humidity: 0 }));
    let d = r.unwrap();
    assert_eq!(d, reading(0, 0));
    assert_eq!(d.temperature_tenths as f32 / 10.0, 0.0f32);
    assert_eq!(d.humidity_tenths as f32 / 10.0, 0.0f32);
    assert_eq!(d.temperature_text(), "0");
    assert_eq!(d.humidity_text(), "0");
}

#[test]
fn negative_and_large_values_pass_through() {
    let d = normalize(Ok(RawMeasurement { temperature: -123, humidity: 65535 })).unwrap();
    assert_eq!(d, reading(-123, 65535));
    assert_eq!(d.temperature_text(), "-12.3");
    assert_eq!(d.humidity_text(), "6553.5");
    let d = normalize(Ok(RawMeasurement { temperature: i16::MIN, humidity: 1000 })).unwrap();
    assert_eq!(d.temperature_text(), "-3276.8");
    assert_eq!(d.humidity_text(), "100");
}

#[test]
fn tenths_text_matches_float_division_for_every_temperature() {
    for t in i16::MIN..=i16::MAX {
        let d = normalize(Ok(RawMeasurement { temperature: t, humidity: 0 })).unwrap();
        assert_eq!(d.temperature_tenths, t);
        assert_eq!(d.temperature_text(), format!("{}", t as f32 / 10.0));
    }
}

#[test]
fn tenths_text_matches_float_division_for_every_humidity() {
    for h in u16::MIN..=u16::MAX {
        let d = normalize(Ok(RawMeasurement { temperature: 0, humidity: h })).unwrap();
        assert_eq!(d.humidity_tenths, h);
        assert_eq!(d.humidity_text(), format!("{}", h as f32 / 10.0));
    }
}

#[test]
fn tenths_text_of_single_values() {
    assert_eq!(tenths_to_string(5), "0.5");
    assert_eq!(tenths_to_string(-5), "-0.5");
    assert_eq!(tenths_to_string(10), "1");
    assert_eq!(tenths_to_string(-10), "-1");
    assert_eq!(tenths_to_string(1234567), "123456.7");
}

#[test]
fn fault_message_is_forwarded_unchanged() {
    for fault in ["Timeout", "CrcMismatch", "Gpio(())", "ChecksumMismatch"] {
        let r = normalize(Err(fault.to_string()));
        assert_eq!(r, Err(fault.to_string()));
    }
}

#[test]
fn checksum_fault_gives_error_line_and_loop_goes_on() {
    let controller = PollingLoop::new(1500);
    let outcome = normalize(Err("ChecksumMismatch".to_string()));
    let action = controller.cycle(&outcome);
    assert_eq!(action.diagnostic, "Error: ChecksumMismatch");
    assert!(action.frame.is_none());
    assert_eq!(action.delay_ms, 1500);
}

#[test]
fn reading_gives_diagnostic_line_and_display_fields() {
    let controller = PollingLoop::new(2000);
    let outcome = normalize(Ok(RawMeasurement { temperature: 231, humidity: 655 }));
    let action = controller.cycle(&outcome);
    assert_eq!(action.diagnostic, "temp: 23.1C, humidity: 65.5%");
    let frame = action.frame.unwrap();
    assert_eq!(frame.temperature_line, "Temperature: 23.1 C");
    assert_eq!(frame.humidity_line, "Humidity: 65.5%");
    assert_eq!(action.delay_ms, 2000);
}

#[test]
fn failure_line_is_never_empty() {
    let controller = PollingLoop::new(1500);
    let action = controller.cycle(&Err(String::new()));
    assert_eq!(action.diagnostic, "Error: ");
    assert_eq!(action.delay_ms, 1500);
}

#[test]
fn alternating_cycles_each_report_their_own_outcome() {
    let controller = PollingLoop::new(1500);
    for i in 0..10i16 {
        let outcome = if i % 2 == 0 {
            normalize(Ok(RawMeasurement { temperature: 200 + i, humidity: 500 + i as u16 }))
        } else {
            normalize(Err(format!("Fault{}", i)))
        };
        let action = controller.cycle(&outcome);
        assert_eq!(action.delay_ms, 1500);
        if i % 2 == 0 {
            let expected = format!("temp: {}C, humidity: {}%", (200 + i) as f32 / 10.0, (500 + i) as f32 / 10.0);
            assert_eq!(action.diagnostic, expected);
            assert!(action.frame.is_some());
        } else {
            assert_eq!(action.diagnostic, format!("Error: Fault{}", i));
            assert!(action.frame.is_none());
        }
    }
}

#[test]
fn always_failing_provider_keeps_the_loop_cycling() {
    let controller = PollingLoop::new(1500);
    let mut cycles = 0;
    for _ in 0..3 {
        let outcome = normalize(Err("Timeout".to_string()));
        let action = controller.cycle(&outcome);
        assert_eq!(action.diagnostic, "Error: Timeout");
        assert!(action.frame.is_none());
        assert_eq!(action.delay_ms, 1500);
        cycles += 1;
    }
    assert_eq!(cycles, 3);
}
