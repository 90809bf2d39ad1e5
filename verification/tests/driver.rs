use max31856::AveragingMode;
use max31856::CMode;
use max31856::ColdJunctionTemperature;
use max31856::Error;
use max31856::Expectation;
use max31856::IdlePin;
use max31856::Max31856;
use max31856::ScriptedBus;
use max31856::ThermocoupleTemperature;

fn thermocouple_celsius(t: ThermocoupleTemperature) -> f32 {
    let magnitude = t.magnitude as f32 / 4096.0;
    if t.negative {
        -magnitude
    } else {
        magnitude
    }
}

fn cold_junction_celsius(t: ColdJunctionTemperature) -> f32 {
    t.counts as f32 / 256.0
}

#[test]
fn can_send_configuration() {
    let spi_expectations = vec![
        Expectation::Write { frame: vec![0x80, 0] },
        Expectation::Write { frame: vec![0x81, 0x23] },
    ];
    let spi = ScriptedBus::new(spi_expectations);
    let mut sensor = Max31856::new(spi, IdlePin {});
    sensor.config().average_samples(AveragingMode::FourSamples);
    sensor.send_config().unwrap();
    assert!(sensor.spi.done());
}

#[test]
fn can_read_temperature_normally_off() {
    let spi_expectations = vec![
        Expectation::Write { frame: vec![0x80, 0x40] },
        Expectation::Transfer {
            sent: vec![0x0C, 0, 0, 0],
            reply: vec![0x0C, 0x05, 0x72, 0xC0],
        },
    ];
    let spi = ScriptedBus::new(spi_expectations);
    let mut sensor = Max31856::new(spi, IdlePin {});
    assert_eq!(thermocouple_celsius(sensor.temperature().unwrap()), 87.171875);
    assert!(sensor.spi.done());
}

#[test]
fn can_get_fault_status() {
    let spi_expectations = vec![Expectation::Transfer {
        sent: vec![0x0F, 0],
        reply: vec![0x0F, 0x15],
    }];
    let spi = ScriptedBus::new(spi_expectations);
    let mut sensor = Max31856::new(spi, IdlePin {});
    let result = sensor.fault_status();
    match result {
        Err(Error::Device(errors)) => {
            assert_eq!(false, errors.cold_junction_out_of_range);
            assert_eq!(false, errors.thermocouple_out_of_range);
            assert_eq!(false, errors.cold_junction_high);
            assert_eq!(true, errors.cold_junction_low);
            assert_eq!(false, errors.thermocouple_high);
            assert_eq!(true, errors.thermocouple_low);
            assert_eq!(false, errors.overvoltage_undervoltage);
            assert_eq!(true, errors.open_circuit);
        }
        _ => panic!("Wrong result"),
    }
    assert!(sensor.spi.done());
}

#[test]
fn fault_status_is_clean_when_no_bit_is_set() {
    let spi_expectations = vec![Expectation::Transfer {
        sent: vec![0x0F, 0],
        reply: vec![0x0F, 0x00],
    }];
    let spi = ScriptedBus::new(spi_expectations);
    let mut sensor = Max31856::new(spi, IdlePin {});
    assert!(sensor.fault_status().is_ok());
    assert!(sensor.spi.done());
}

#[test]
fn fault_status_reports_only_overvoltage_once_that_bit_is_set() {
    let spi_expectations = vec![Expectation::Transfer {
        sent: vec![0x0F, 0],
        reply: vec![0x0F, 0xFF],
    }];
    let spi = ScriptedBus::new(spi_expectations);
    let mut sensor = Max31856::new(spi, IdlePin {});
    match sensor.fault_status() {
        Err(Error::Device(errors)) => {
            assert_eq!(true, errors.overvoltage_undervoltage);
            assert_eq!(false, errors.cold_junction_out_of_range);
            assert_eq!(false, errors.thermocouple_out_of_range);
            assert_eq!(false, errors.cold_junction_high);
            assert_eq!(false, errors.cold_junction_low);
            assert_eq!(false, errors.thermocouple_high);
            assert_eq!(false, errors.thermocouple_low);
            assert_eq!(false, errors.open_circuit);
        }
        _ => panic!("Wrong result"),
    }
    assert!(sensor.spi.done());
}

#[test]
fn automatic_mode_reads_without_a_trigger_write() {
    let spi_expectations = vec![Expectation::Transfer {
        sent: vec![0x0C, 0, 0, 0],
        reply: vec![0x0C, 0x01, 0x90, 0x00],
    }];
    let spi = ScriptedBus::new(spi_expectations);
    let mut sensor = Max31856::new(spi, IdlePin {});
    sensor.config().conversion_mode(CMode::AutomaticConversion);
    assert_eq!(thermocouple_celsius(sensor.temperature().unwrap()), 25.0);
    assert!(sensor.spi.done());
}

#[test]
fn can_read_cold_junction_temperature() {
    let spi_expectations = vec![Expectation::Transfer {
        sent: vec![0x0A, 0, 0],
        reply: vec![0x0A, 0x7F, 0xFC],
    }];
    let spi = ScriptedBus::new(spi_expectations);
    let mut sensor = Max31856::new(spi, IdlePin {});
    let reading = sensor.cold_junction_temperature().unwrap();
    assert_eq!(cold_junction_celsius(reading), 127.984375);
    assert!(sensor.spi.done());
}

#[test]
fn transport_failure_surfaces_as_spi_error() {
    let spi = ScriptedBus::new(vec![]);
    let mut sensor = Max31856::new(spi, IdlePin {});
    match sensor.send_config() {
        Err(Error::Spi) => {}
        _ => panic!("Wrong result"),
    }
    match sensor.temperature() {
        Err(Error::Spi) => {}
        _ => panic!("Wrong result"),
    }
    match sensor.fault_status() {
        Err(Error::Spi) => {}
        _ => panic!("Wrong result"),
    }
}

#[test]
fn partial_configuration_write_stops_after_the_low_register() {
    let spi_expectations = vec![Expectation::Write { frame: vec![0x80, 0] }];
    let spi = ScriptedBus::new(spi_expectations);
    let mut sensor = Max31856::new(spi, IdlePin {});
    match sensor.send_config() {
        Err(Error::Spi) => {}
        _ => panic!("Wrong result"),
    }
    assert!(sensor.spi.done());
}
