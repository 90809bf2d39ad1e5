use vstd::prelude::*;

verus! {

/// Bit masks of the status register, fixed by the device's register layout.
pub struct FaultBits {}

impl FaultBits {
    /// Cold-junction temperature out of range (bit 7).
    pub const CJ_RANGE: u8 = 0x80;

    /// Thermocouple temperature out of range (bit 6).
    pub const TC_RANGE: u8 = 0x40;

    /// Cold-junction temperature above its high threshold (bit 5).
    pub const CJ_HIGH: u8 = 0x20;

    /// Cold-junction temperature below its low threshold (bit 4).
    pub const CJ_LOW: u8 = 0x10;

    /// Thermocouple temperature above its high threshold (bit 3).
    pub const TC_HIGH: u8 = 0x08;

    /// Thermocouple temperature below its low threshold (bit 2).
    pub const TC_LOW: u8 = 0x04;

    /// Input voltage above or below the supply rails (bit 1).
    pub const OVUV: u8 = 0x02;

    /// Open thermocouple circuit (bit 0).
    pub const OPEN: u8 = 0x01;
}

/// The faults the device can report, one independent flag each.
///
/// If the over/undervoltage flag is set, the other flags are unreliable and
/// the classification leaves them clear; fix the voltage fault first.
#[derive(Debug, Clone, Copy, PartialEq, Eq, Structural)]
pub struct DeviceErrors {
    /// Cold-junction temperature out of range.
    pub cold_junction_out_of_range: bool,
    /// Thermocouple temperature out of range.
    pub thermocouple_out_of_range: bool,
    /// Cold-junction temperature above its high threshold.
    pub cold_junction_high: bool,
    /// Cold-junction temperature below its low threshold.
    pub cold_junction_low: bool,
    /// Thermocouple temperature above its high threshold.
    pub thermocouple_high: bool,
    /// Thermocouple temperature below its low threshold.
    pub thermocouple_low: bool,
    /// Input voltage above or below the supply rails.
    pub overvoltage_undervoltage: bool,
    /// Open thermocouple circuit.
    pub open_circuit: bool,
}

impl DeviceErrors {
    /// The record with every flag clear.
    pub open spec fn spec_none() -> DeviceErrors {
        DeviceErrors {
            cold_junction_out_of_range: false,
            thermocouple_out_of_range: false,
            cold_junction_high: false,
            cold_junction_low: false,
            thermocouple_high: false,
            thermocouple_low: false,
            overvoltage_undervoltage: false,
            open_circuit: false,
        }
    }

    /// The record reported for an over/undervoltage condition: only that
    /// flag is set, whatever else the status byte holds.
    pub open spec fn spec_overvoltage_only() -> DeviceErrors {
        DeviceErrors { overvoltage_undervoltage: true, ..DeviceErrors::spec_none() }
    }

    /// The seven independent flags read off the status byte; the
    /// over/undervoltage flag is left clear because this reading is only
    /// used once that bit has been found clear.
    pub open spec fn spec_independent_flags(status: u8) -> DeviceErrors {
        DeviceErrors {
            cold_junction_out_of_range: status & FaultBits::CJ_RANGE != 0,
            thermocouple_out_of_range: status & FaultBits::TC_RANGE != 0,
            cold_junction_high: status & FaultBits::CJ_HIGH != 0,
            cold_junction_low: status & FaultBits::CJ_LOW != 0,
            thermocouple_high: status & FaultBits::TC_HIGH != 0,
            thermocouple_low: status & FaultBits::TC_LOW != 0,
            overvoltage_undervoltage: false,
            open_circuit: status & FaultBits::OPEN != 0,
        }
    }
}

impl Default for DeviceErrors {
    /// A fresh record has every flag clear.
    fn default() -> (r: Self)
        ensures
            r == DeviceErrors::spec_none(),
    {
        DeviceErrors {
            cold_junction_out_of_range: false,
            thermocouple_out_of_range: false,
            cold_junction_high: false,
            cold_junction_low: false,
            thermocouple_high: false,
            thermocouple_low: false,
            overvoltage_undervoltage: false,
            open_circuit: false,
        }
    }
}

/// Classification of one status byte: `None` when no fault bit is asserted,
/// otherwise the populated flag record.
///
/// The over/undervoltage bit takes precedence: when it is set, the other
/// bits are unreliable by the device's documentation and are ignored.
pub open spec fn spec_classify(status: u8) -> Option<DeviceErrors> {
    if status & FaultBits::OVUV != 0 {
        Some(DeviceErrors::spec_overvoltage_only())
    } else if DeviceErrors::spec_independent_flags(status) == DeviceErrors::spec_none() {
        None
    } else {
        Some(DeviceErrors::spec_independent_flags(status))
    }
}

/// Law: once the over/undervoltage bit of the status byte is set, the
/// classification reports that flag alone, whatever the other bits hold.
pub proof fn lemma_overvoltage_shadows_other_faults(status: u8)
    requires
        status & FaultBits::OVUV != 0,
    ensures
        spec_classify(status) == Some(DeviceErrors::spec_overvoltage_only()),
{
}

/// Classify one raw status byte into `None` (no fault) or the populated
/// flag record, with the over/undervoltage bit taking precedence.
pub fn classify_status(status: u8) -> (r: Option<DeviceErrors>)
    ensures
        r == spec_classify(status),
{
    let mut errors = DeviceErrors::default();
    if status & FaultBits::OVUV != 0 {
        errors.overvoltage_undervoltage = true;
        return Some(errors);
    }
    let mut has_error = false;
    if status & FaultBits::CJ_HIGH != 0 {
        errors.cold_junction_high = true;
        has_error = true;
    }
    if status & FaultBits::CJ_LOW != 0 {
        errors.cold_junction_low = true;
        has_error = true;
    }
    if status & FaultBits::CJ_RANGE != 0 {
        errors.cold_junction_out_of_range = true;
        has_error = true;
    }
    if status & FaultBits::OPEN != 0 {
        errors.open_circuit = true;
        has_error = true;
    }
    if status & FaultBits::TC_HIGH != 0 {
        errors.thermocouple_high = true;
        has_error = true;
    }
    if status & FaultBits::TC_LOW != 0 {
        errors.thermocouple_low = true;
        has_error = true;
    }
    if status & FaultBits::TC_RANGE != 0 {
        errors.thermocouple_out_of_range = true;
        has_error = true;
    }
    if has_error {
        Some(errors)
    } else {
        None
    }
}

} // verus!
