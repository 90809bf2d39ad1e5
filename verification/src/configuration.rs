use vstd::prelude::*;

verus! {

/// Conversion mode, placed at bit 7 of the low control register.
#[derive(Debug, Clone, Copy, PartialEq, Eq, Structural)]
pub enum CMode {
    /// Normally-off mode: a conversion happens only on a one-shot trigger.
    NormallyOff,
    /// Automatic conversion mode: conversions occur continuously.
    AutomaticConversion,
}

impl CMode {
    /// Encoded register value of the field.
    pub open spec fn value(self) -> u8 {
        match self {
            CMode::NormallyOff => 0,
            CMode::AutomaticConversion => 1,
        }
    }
}

/// One-shot trigger, placed at bit 6 of the low control register.
#[derive(Debug, Clone, Copy, PartialEq, Eq, Structural)]
pub enum OneShot {
    /// No conversion requested.
    NoConversion,
    /// Request a single cold-junction and thermocouple conversion while in
    /// normally-off mode. The device clears the bit itself once the
    /// conversion completes.
    OneShotConversion,
}

impl OneShot {
    /// Encoded register value of the field.
    pub open spec fn value(self) -> u8 {
        match self {
            OneShot::NoConversion => 0,
            OneShot::OneShotConversion => 1,
        }
    }
}

/// Open-circuit fault detection level, placed at bits 5 and 4 of the low
/// control register.
#[derive(Debug, Clone, Copy, PartialEq, Eq, Structural)]
pub enum OCFaultModes {
    /// Detection disabled.
    Disabled,
    /// Detection enabled for source resistances under 5 kOhm.
    Enabled5k,
    /// Detection enabled for source resistances between 5 kOhm and 40 kOhm,
    /// time constant under 2 ms.
    Enabled40k,
    /// Detection enabled for source resistances between 5 kOhm and 40 kOhm,
    /// time constant over 2 ms.
    Enabled40k2ms,
}

impl OCFaultModes {
    /// Encoded register value of the field.
    pub open spec fn value(self) -> u8 {
        match self {
            OCFaultModes::Disabled => 0,
            OCFaultModes::Enabled5k => 1,
            OCFaultModes::Enabled40k => 2,
            OCFaultModes::Enabled40k2ms => 3,
        }
    }
}

/// Fault output mode, placed at bit 2 of the low control register.
#[derive(Debug, Clone, Copy, PartialEq, Eq, Structural)]
pub enum FaultModes {
    /// Comparator mode: the fault output follows the fault condition.
    Comparator,
    /// Interrupt mode: the fault output latches until it is cleared.
    Interrupt,
}

impl FaultModes {
    /// Encoded register value of the field.
    pub open spec fn value(self) -> u8 {
        match self {
            FaultModes::Comparator => 0,
            FaultModes::Interrupt => 1,
        }
    }
}

/// Noise-rejection filter frequency, placed at bit 0 of the low control
/// register.
#[derive(Debug, Clone, Copy, PartialEq, Eq, Structural)]
pub enum NoiseRejectionMode {
    /// Reject 60 Hz mains noise and its harmonics.
    Reject60Hz,
    /// Reject 50 Hz mains noise and its harmonics.
    Reject50Hz,
}

impl NoiseRejectionMode {
    /// Encoded register value of the field.
    pub open spec fn value(self) -> u8 {
        match self {
            NoiseRejectionMode::Reject60Hz => 0,
            NoiseRejectionMode::Reject50Hz => 1,
        }
    }
}

/// Averaging sample count, placed at bits 6 to 4 of the high control
/// register.
#[derive(Debug, Clone, Copy, PartialEq, Eq, Structural)]
pub enum AveragingMode {
    /// One sample per conversion.
    OneSample,
    /// Two samples averaged per conversion.
    TwoSamples,
    /// Four samples averaged per conversion.
    FourSamples,
    /// Eight samples averaged per conversion.
    EightSamples,
    /// Sixteen samples averaged per conversion.
    SixteenSamples,
}

impl AveragingMode {
    /// Encoded register value of the field.
    pub open spec fn value(self) -> u8 {
        match self {
            AveragingMode::OneSample => 0,
            AveragingMode::TwoSamples => 1,
            AveragingMode::FourSamples => 2,
            AveragingMode::EightSamples => 3,
            AveragingMode::SixteenSamples => 4,
        }
    }
}

/// Thermocouple type selector, placed at bits 3 to 0 of the high control
/// register.
#[derive(Debug, Clone, Copy, PartialEq, Eq, Structural)]
pub enum ThermocoupleType {
    /// B-type thermocouple.
    BType,
    /// E-type thermocouple.
    EType,
    /// J-type thermocouple.
    JType,
    /// K-type thermocouple.
    KType,
    /// N-type thermocouple.
    NType,
    /// R-type thermocouple.
    RType,
    /// S-type thermocouple.
    SType,
    /// T-type thermocouple.
    TType,
    /// Voltage mode with gain 8.
    VModeGain8Type,
    /// Voltage mode with gain 32.
    VModeGain32Type,
}

impl ThermocoupleType {
    /// Encoded register value of the field.
    pub open spec fn value(self) -> u8 {
        match self {
            ThermocoupleType::BType => 0,
            ThermocoupleType::EType => 1,
            ThermocoupleType::JType => 2,
            ThermocoupleType::KType => 3,
            ThermocoupleType::NType => 4,
            ThermocoupleType::RType => 5,
            ThermocoupleType::SType => 6,
            ThermocoupleType::TType => 7,
            ThermocoupleType::VModeGain8Type => 8,
            ThermocoupleType::VModeGain32Type => 9,
        }
    }
}

/// The configuration record: the eight independently settable options that
/// the two control registers hold.
#[derive(Debug, Clone, Copy, PartialEq, Eq, Structural)]
pub struct Max31856Options {
    /// Conversion mode (low register, bit 7).
    pub conversion_mode: CMode,
    /// One-shot trigger (low register, bit 6).
    pub one_shot_conversion: OneShot,
    /// Open-circuit fault detection level (low register, bits 5 and 4).
    pub open_circuit_fault_det: OCFaultModes,
    /// Cold-junction sensor disable flag (low register, bit 3).
    pub cold_junction_sensor_disable: bool,
    /// Fault output mode (low register, bit 2).
    pub fault_mode: FaultModes,
    /// Noise-rejection filter frequency (low register, bit 0).
    pub noise_rejection_frequency: NoiseRejectionMode,
    /// Averaging sample count (high register, bits 6 to 4).
    pub average_samples: AveragingMode,
    /// Thermocouple type selector (high register, bits 3 to 0).
    pub type_selection: ThermocoupleType,
}

impl Max31856Options {
    /// The documented power-on defaults of the options record.
    pub open spec fn spec_default() -> Max31856Options {
        Max31856Options {
            conversion_mode: CMode::NormallyOff,
            one_shot_conversion: OneShot::NoConversion,
            open_circuit_fault_det: OCFaultModes::Disabled,
            cold_junction_sensor_disable: false,
            fault_mode: FaultModes::Comparator,
            noise_rejection_frequency: NoiseRejectionMode::Reject60Hz,
            average_samples: AveragingMode::OneSample,
            type_selection: ThermocoupleType::KType,
        }
    }

    /// The packed low control-register byte: every field's encoded value
    /// weighted by its documented bit offset. Bit 1 is the fault-status
    /// clear bit, which this record always leaves at zero.
    pub open spec fn spec_c0(self) -> u8 {
        (self.conversion_mode.value() * 0x80
            + self.one_shot_conversion.value() * 0x40
            + self.open_circuit_fault_det.value() * 0x10
            + (if self.cold_junction_sensor_disable { 1u8 } else { 0u8 }) * 0x08
            + self.fault_mode.value() * 0x04
            + self.noise_rejection_frequency.value()) as u8
    }

    /// The packed high control-register byte: the averaging sample count at
    /// bit 4 and the thermocouple type selector at bit 0.
    pub open spec fn spec_c1(self) -> u8 {
        (self.average_samples.value() * 0x10 + self.type_selection.value()) as u8
    }

    /// Create the options record with its documented defaults.
    pub fn new() -> (r: Max31856Options)
        ensures
            r == Max31856Options::spec_default(),
    {
        Max31856Options {
            conversion_mode: CMode::NormallyOff,
            one_shot_conversion: OneShot::NoConversion,
            open_circuit_fault_det: OCFaultModes::Disabled,
            cold_junction_sensor_disable: false,
            fault_mode: FaultModes::Comparator,
            noise_rejection_frequency: NoiseRejectionMode::Reject60Hz,
            average_samples: AveragingMode::OneSample,
            type_selection: ThermocoupleType::KType,
        }
    }

    /// Set the conversion mode; returns the record again so that calls can
    /// be chained.
    pub fn conversion_mode(&mut self, mode: CMode) -> (r: &mut Self)
        ensures
            *r == (Max31856Options { conversion_mode: mode, ..*old(self) }),
            *final(self) == *final(r),
    {
        self.conversion_mode = mode;
        self
    }

    /// Set the one-shot trigger; returns the record again so that calls can
    /// be chained.
    pub fn one_shot_conversion(&mut self, mode: OneShot) -> (r: &mut Self)
        ensures
            *r == (Max31856Options { one_shot_conversion: mode, ..*old(self) }),
            *final(self) == *final(r),
    {
        self.one_shot_conversion = mode;
        self
    }

    /// Set the open-circuit fault detection level; returns the record again
    /// so that calls can be chained.
    pub fn open_circuit_fault_det(&mut self, mode: OCFaultModes) -> (r: &mut Self)
        ensures
            *r == (Max31856Options { open_circuit_fault_det: mode, ..*old(self) }),
            *final(self) == *final(r),
    {
        self.open_circuit_fault_det = mode;
        self
    }

    /// Enable or disable the cold-junction sensor; returns the record again
    /// so that calls can be chained.
    pub fn cold_junction_sensor_disable(&mut self, mode: bool) -> (r: &mut Self)
        ensures
            *r == (Max31856Options { cold_junction_sensor_disable: mode, ..*old(self) }),
            *final(self) == *final(r),
    {
        self.cold_junction_sensor_disable = mode;
        self
    }

    /// Set the fault output mode; returns the record again so that calls
    /// can be chained.
    pub fn fault_mode(&mut self, mode: FaultModes) -> (r: &mut Self)
        ensures
            *r == (Max31856Options { fault_mode: mode, ..*old(self) }),
            *final(self) == *final(r),
    {
        self.fault_mode = mode;
        self
    }

    /// Set the noise-rejection filter frequency; returns the record again
    /// so that calls can be chained.
    pub fn noise_rejection_frequency(&mut self, mode: NoiseRejectionMode) -> (r: &mut Self)
        ensures
            *r == (Max31856Options { noise_rejection_frequency: mode, ..*old(self) }),
            *final(self) == *final(r),
    {
        self.noise_rejection_frequency = mode;
        self
    }

    /// Set the averaging sample count; returns the record again so that
    /// calls can be chained.
    pub fn average_samples(&mut self, mode: AveragingMode) -> (r: &mut Self)
        ensures
            *r == (Max31856Options { average_samples: mode, ..*old(self) }),
            *final(self) == *final(r),
    {
        self.average_samples = mode;
        self
    }

    /// Set the thermocouple type selector; returns the record again so that
    /// calls can be chained.
    pub fn type_selection(&mut self, mode: ThermocoupleType) -> (r: &mut Self)
        ensures
            *r == (Max31856Options { type_selection: mode, ..*old(self) }),
            *final(self) == *final(r),
    {
        self.type_selection = mode;
        self
    }

    /// Pack the low control-register byte from the record.
    pub fn extract_c0(&self) -> (r: u8)
        ensures
            r == self.spec_c0(),
    {
        let cmode: u8 = match self.conversion_mode {
            CMode::NormallyOff => 0,
            CMode::AutomaticConversion => 1,
        };
        let one_shot: u8 = match self.one_shot_conversion {
            OneShot::NoConversion => 0,
            OneShot::OneShotConversion => 1,
        };
        let ocfault_mode: u8 = match self.open_circuit_fault_det {
            OCFaultModes::Disabled => 0,
            OCFaultModes::Enabled5k => 1,
            OCFaultModes::Enabled40k => 2,
            OCFaultModes::Enabled40k2ms => 3,
        };
        let cj_mode: u8 = if self.cold_junction_sensor_disable { 1 } else { 0 };
        let fault_mode: u8 = match self.fault_mode {
            FaultModes::Comparator => 0,
            FaultModes::Interrupt => 1,
        };
        let noise_rejection_mode: u8 = match self.noise_rejection_frequency {
            NoiseRejectionMode::Reject60Hz => 0,
            NoiseRejectionMode::Reject50Hz => 1,
        };
        cmode * 0x80 + one_shot * 0x40 + ocfault_mode * 0x10 + cj_mode * 0x08
            + fault_mode * 0x04 + noise_rejection_mode
    }

    /// Pack the high control-register byte from the record.
    pub fn extract_c1(&self) -> (r: u8)
        ensures
            r == self.spec_c1(),
    {
        let averaging_mode: u8 = match self.average_samples {
            AveragingMode::OneSample => 0,
            AveragingMode::TwoSamples => 1,
            AveragingMode::FourSamples => 2,
            AveragingMode::EightSamples => 3,
            AveragingMode::SixteenSamples => 4,
        };
        let tc_type: u8 = match self.type_selection {
            ThermocoupleType::BType => 0,
            ThermocoupleType::EType => 1,
            ThermocoupleType::JType => 2,
            ThermocoupleType::KType => 3,
            ThermocoupleType::NType => 4,
            ThermocoupleType::RType => 5,
            ThermocoupleType::SType => 6,
            ThermocoupleType::TType => 7,
            ThermocoupleType::VModeGain8Type => 8,
            ThermocoupleType::VModeGain32Type => 9,
        };
        averaging_mode * 0x10 + tc_type
    }
}

/// Law: the packed low register byte is exactly the bit pattern implied by
/// each field's documented shift: conversion mode at bit 7, one-shot at
/// bit 6, open-circuit detection at bits 5 and 4, cold-junction disable at
/// bit 3, fault mode at bit 2, fault clear (always zero) at bit 1, and
/// noise rejection at bit 0.
pub proof fn lemma_c0_bit_layout(c: Max31856Options)
    ensures
        c.spec_c0() == c.conversion_mode.value() << 7
            | c.one_shot_conversion.value() << 6
            | c.open_circuit_fault_det.value() << 4
            | (if c.cold_junction_sensor_disable { 1u8 } else { 0u8 }) << 3
            | c.fault_mode.value() << 2
            | c.noise_rejection_frequency.value(),
{
    let cm = c.conversion_mode.value();
    let os = c.one_shot_conversion.value();
    let oc = c.open_circuit_fault_det.value();
    let cj: u8 = if c.cold_junction_sensor_disable { 1 } else { 0 };
    let fm = c.fault_mode.value();
    let nr = c.noise_rejection_frequency.value();
    assert(cm <= 1 && os <= 1 && oc <= 3 && cj <= 1 && fm <= 1 && nr <= 1);
    assert(((cm * 0x80 + os * 0x40 + oc * 0x10 + cj * 0x08 + fm * 0x04 + nr) as u8)
        == cm << 7 | os << 6 | oc << 4 | cj << 3 | fm << 2 | nr) by (bit_vector)
        requires
            cm <= 1 && os <= 1 && oc <= 3 && cj <= 1 && fm <= 1 && nr <= 1,
    ;
}

/// Law: the packed high register byte is exactly the bit pattern implied by
/// each field's documented shift: the averaging sample count at bit 4 and
/// the thermocouple type selector at bit 0.
pub proof fn lemma_c1_bit_layout(c: Max31856Options)
    ensures
        c.spec_c1() == c.average_samples.value() << 4 | c.type_selection.value(),
{
    let av = c.average_samples.value();
    let ty = c.type_selection.value();
    assert(av <= 4 && ty <= 9);
    assert(((av * 0x10 + ty) as u8) == av << 4 | ty) by (bit_vector)
        requires
            av <= 4 && ty <= 9,
    ;
}

/// Law: packing is a pure function of the options record. Equal records
/// always pack to the same pair of control-register bytes, however often
/// they are packed.
pub proof fn lemma_packing_is_deterministic(a: Max31856Options, b: Max31856Options)
    requires
        a == b,
    ensures
        a.spec_c0() == b.spec_c0(),
        a.spec_c1() == b.spec_c1(),
{
}

impl Default for Max31856Options {
    /// The defaults match `Max31856Options::new`.
    fn default() -> (r: Self)
        ensures
            r == Max31856Options::spec_default(),
    {
        Max31856Options::new()
    }
}

} // verus!
