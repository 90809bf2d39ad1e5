use max31856::classify_status;
use max31856::decode_cold_junction;
use max31856::decode_thermocouple;
use max31856::ColdJunctionTemperature;
use max31856::ThermocoupleTemperature;

fn thermocouple_celsius(t: ThermocoupleTemperature) -> f32 {
    let magnitude = t.magnitude as f32 / 4096.0;
    if t.negative {
        -magnitude
    } else {
        magnitude
    }
}

fn cold_junction_celsius(t: ColdJunctionTemperature) -> f32 {
    t.counts as f32 / 256.0
}

#[test]
fn thermocouple_decode_examples() {
    assert_eq!(thermocouple_celsius(decode_thermocouple(0x05, 0x72, 0xC0)), 87.171875);
    assert_eq!(thermocouple_celsius(decode_thermocouple(0x85, 0x72, 0xC0)), -87.171875);
    assert_eq!(thermocouple_celsius(decode_thermocouple(0x00, 0x00, 0x00)), 0.0);
    assert_eq!(thermocouple_celsius(decode_thermocouple(0x00, 0x01, 0x00)), 0.0625);
    assert_eq!(thermocouple_celsius(decode_thermocouple(0x64, 0x00, 0x00)), 1600.0);
    assert_eq!(thermocouple_celsius(decode_thermocouple(0x3E, 0x80, 0x00)), 1000.0);
    assert_eq!(thermocouple_celsius(decode_thermocouple(0x06, 0x4F, 0x00)), 100.9375);
    assert_eq!(thermocouple_celsius(decode_thermocouple(0x01, 0x90, 0x00)), 25.0);
}

#[test]
fn cold_junction_decode_examples() {
    assert_eq!(cold_junction_celsius(decode_cold_junction(0x7F, 0xFC)), 127.984375);
    assert_eq!(cold_junction_celsius(decode_cold_junction(0xC9, 0x00)), -55.0);
    assert_eq!(cold_junction_celsius(decode_cold_junction(0x00, 0x00)), 0.0);
    assert_eq!(cold_junction_celsius(decode_cold_junction(0x19, 0x00)), 25.0);
}

#[test]
fn classify_reads_each_bit_independently() {
    assert!(classify_status(0x00).is_none());

    let errors = classify_status(0x15).expect("a fault record");
    assert_eq!(false, errors.cold_junction_out_of_range);
    assert_eq!(false, errors.thermocouple_out_of_range);
    assert_eq!(false, errors.cold_junction_high);
    assert_eq!(true, errors.cold_junction_low);
    assert_eq!(false, errors.thermocouple_high);
    assert_eq!(true, errors.thermocouple_low);
    assert_eq!(false, errors.overvoltage_undervoltage);
    assert_eq!(true, errors.open_circuit);

    let errors = classify_status(0xE9).expect("a fault record");
    assert_eq!(true, errors.cold_junction_out_of_range);
    assert_eq!(true, errors.thermocouple_out_of_range);
    assert_eq!(true, errors.cold_junction_high);
    assert_eq!(false, errors.cold_junction_low);
    assert_eq!(true, errors.thermocouple_high);
    assert_eq!(false, errors.thermocouple_low);
    assert_eq!(false, errors.overvoltage_undervoltage);
    assert_eq!(true, errors.open_circuit);
}

#[test]
fn classify_overvoltage_takes_precedence() {
    let errors = classify_status(0xFF).expect("a fault record");
    assert_eq!(true, errors.overvoltage_undervoltage);
    assert_eq!(false, errors.cold_junction_out_of_range);
    assert_eq!(false, errors.thermocouple_out_of_range);
    assert_eq!(false, errors.cold_junction_high);
    assert_eq!(false, errors.cold_junction_low);
    assert_eq!(false, errors.thermocouple_high);
    assert_eq!(false, errors.thermocouple_low);
    assert_eq!(false, errors.open_circuit);

    let errors = classify_status(0x02).expect("a fault record");
    assert_eq!(true, errors.overvoltage_undervoltage);
    assert_eq!(false, errors.open_circuit);
}
