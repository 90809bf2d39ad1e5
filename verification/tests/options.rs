use max31856::AveragingMode;
use max31856::CMode;
use max31856::FaultModes;
use max31856::Max31856Options;
use max31856::NoiseRejectionMode;
use max31856::OCFaultModes;
use max31856::OneShot;
use max31856::Registers;
use max31856::ThermocoupleType;

#[test]
fn can_extract_max31856_c0_c1() {
    let mut options = Max31856Options::new();
    options
        .average_samples(AveragingMode::SixteenSamples)
        .fault_mode(FaultModes::Interrupt)
        .noise_rejection_frequency(NoiseRejectionMode::Reject50Hz)
        .conversion_mode(CMode::AutomaticConversion);
    let c0_c1 = (options.extract_c0(), options.extract_c1());
    assert_eq!(c0_c1, (0b1000_0101, 0b0100_0011));
}

#[test]
fn can_create_max31856_options() {
    let mut options = Max31856Options::new();
    options
        .average_samples(AveragingMode::SixteenSamples)
        .conversion_mode(CMode::AutomaticConversion);
}

#[test]
fn default_options_pack_to_factory_defaults() {
    let options = Max31856Options::new();
    assert_eq!(options.extract_c0(), Registers::cr0().factory_default);
    assert_eq!(options.extract_c1(), Registers::cr1().factory_default);
}

#[test]
fn packing_same_record_is_idempotent() {
    let mut options = Max31856Options::new();
    options
        .conversion_mode(CMode::AutomaticConversion)
        .open_circuit_fault_det(OCFaultModes::Enabled40k)
        .type_selection(ThermocoupleType::TType);
    let first = (options.extract_c0(), options.extract_c1());
    let second = (options.extract_c0(), options.extract_c1());
    assert_eq!(first, second);
}

#[test]
fn each_low_register_field_lands_on_its_bits() {
    let mut options = Max31856Options::new();
    options.conversion_mode(CMode::AutomaticConversion);
    assert_eq!(options.extract_c0(), 0b1000_0000);

    let mut options = Max31856Options::new();
    options.one_shot_conversion(OneShot::OneShotConversion);
    assert_eq!(options.extract_c0(), 0b0100_0000);

    let mut options = Max31856Options::new();
    options.open_circuit_fault_det(OCFaultModes::Enabled5k);
    assert_eq!(options.extract_c0(), 0b0001_0000);
    options.open_circuit_fault_det(OCFaultModes::Enabled40k);
    assert_eq!(options.extract_c0(), 0b0010_0000);
    options.open_circuit_fault_det(OCFaultModes::Enabled40k2ms);
    assert_eq!(options.extract_c0(), 0b0011_0000);

    let mut options = Max31856Options::new();
    options.cold_junction_sensor_disable(true);
    assert_eq!(options.extract_c0(), 0b0000_1000);

    let mut options = Max31856Options::new();
    options.fault_mode(FaultModes::Interrupt);
    assert_eq!(options.extract_c0(), 0b0000_0100);

    let mut options = Max31856Options::new();
    options.noise_rejection_frequency(NoiseRejectionMode::Reject50Hz);
    assert_eq!(options.extract_c0(), 0b0000_0001);
}

#[test]
fn each_high_register_field_lands_on_its_bits() {
    let mut options = Max31856Options::new();
    options.type_selection(ThermocoupleType::BType);

    options.average_samples(AveragingMode::OneSample);
    assert_eq!(options.extract_c1(), 0x00);
    options.average_samples(AveragingMode::TwoSamples);
    assert_eq!(options.extract_c1(), 0x10);
    options.average_samples(AveragingMode::FourSamples);
    assert_eq!(options.extract_c1(), 0x20);
    options.average_samples(AveragingMode::EightSamples);
    assert_eq!(options.extract_c1(), 0x30);
    options.average_samples(AveragingMode::SixteenSamples);
    assert_eq!(options.extract_c1(), 0x40);

    let mut options = Max31856Options::new();
    options.average_samples(AveragingMode::OneSample);
    options.type_selection(ThermocoupleType::BType);
    assert_eq!(options.extract_c1(), 0);
    options.type_selection(ThermocoupleType::EType);
    assert_eq!(options.extract_c1(), 1);
    options.type_selection(ThermocoupleType::JType);
    assert_eq!(options.extract_c1(), 2);
    options.type_selection(ThermocoupleType::KType);
    assert_eq!(options.extract_c1(), 3);
    options.type_selection(ThermocoupleType::NType);
    assert_eq!(options.extract_c1(), 4);
    options.type_selection(ThermocoupleType::RType);
    assert_eq!(options.extract_c1(), 5);
    options.type_selection(ThermocoupleType::SType);
    assert_eq!(options.extract_c1(), 6);
    options.type_selection(ThermocoupleType::TType);
    assert_eq!(options.extract_c1(), 7);
    options.type_selection(ThermocoupleType::VModeGain8Type);
    assert_eq!(options.extract_c1(), 8);
    options.type_selection(ThermocoupleType::VModeGain32Type);
    assert_eq!(options.extract_c1(), 9);
}

#[test]
fn register_map_addresses_are_fixed() {
    assert_eq!(Registers::cr0().read_address, 0x00);
    assert_eq!(Registers::cr0().write_address, 0x80);
    assert_eq!(Registers::cr1().read_address, 0x01);
    assert_eq!(Registers::cr1().write_address, 0x81);
    assert_eq!(Registers::mask().read_address, 0x02);
    assert_eq!(Registers::mask().write_address, 0x82);
    assert_eq!(Registers::mask().factory_default, 0xFF);
    assert_eq!(Registers::cjhf().read_address, 0x03);
    assert_eq!(Registers::cjhf().factory_default, 0x7F);
    assert_eq!(Registers::cjlf().read_address, 0x04);
    assert_eq!(Registers::cjlf().factory_default, 0xC0);
    assert_eq!(Registers::lthfth().read_address, 0x05);
    assert_eq!(Registers::lthftl().read_address, 0x06);
    assert_eq!(Registers::ltlfth().read_address, 0x07);
    assert_eq!(Registers::ltlftl().read_address, 0x08);
    assert_eq!(Registers::cjto().read_address, 0x09);
    assert_eq!(Registers::cjth().read_address, 0x0A);
    assert_eq!(Registers::cjtl().read_address, 0x0B);
    assert_eq!(Registers::ltcbh().read_address, 0x0C);
    assert_eq!(Registers::ltcbm().read_address, 0x0D);
    assert_eq!(Registers::ltcbl().read_address, 0x0E);
    assert_eq!(Registers::sr().read_address, 0x0F);
}
