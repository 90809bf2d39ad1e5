use vstd::prelude::*;

verus! {

/// A linearized thermocouple temperature, decoded from the three
/// temperature register bytes.
///
/// The device stores the value as sign and magnitude: the temperature in
/// degrees Celsius is `magnitude / 4096`, negated when `negative` is set.
/// The division is exact in any binary floating-point format wide enough
/// to hold 23 bits, so converting to such a format loses nothing.
#[derive(Debug, Clone, Copy, PartialEq, Eq, Structural)]
pub struct ThermocoupleTemperature {
    /// The sign bit of the reading.
    pub negative: bool,
    /// The magnitude of the reading in units of 1/4096 degree Celsius;
    /// always below `0x80_0000`.
    pub magnitude: u32,
}

/// A cold-junction temperature, decoded from the two cold-junction register
/// bytes.
///
/// The temperature in degrees Celsius is `counts / 256`; the device leaves
/// the lowest two bits of the raw pair at zero, for a resolution of 1/64
/// degree.
#[derive(Debug, Clone, Copy, PartialEq, Eq, Structural)]
pub struct ColdJunctionTemperature {
    /// The reading in units of 1/256 degree Celsius, between `-0x8000`
    /// and `0x7FFF`.
    pub counts: i32,
}

/// Decoding of the three thermocouple temperature register bytes, most
/// significant first: the top bit of the first byte is the sign, and the
/// remaining 7 + 8 + 8 bits, read as one big-endian integer, are the
/// magnitude in units of 1/4096 degree Celsius.
pub open spec fn spec_decode_thermocouple(b1: u8, b2: u8, b3: u8) -> ThermocoupleTemperature {
    ThermocoupleTemperature {
        negative: b1 & 0x80 == 0x80,
        magnitude: (((b1 & 0x7F) as u32) * 0x10000 + (b2 as u32) * 0x100 + (b3 as u32)) as u32,
    }
}

/// Decoding of the two cold-junction temperature register bytes, most
/// significant first: the pair read as one big-endian two's-complement
/// integer gives the reading in units of 1/256 degree Celsius.
pub open spec fn spec_decode_cold_junction(b1: u8, b2: u8) -> ColdJunctionTemperature {
    ColdJunctionTemperature {
        counts: if b1 >= 0x80 {
            ((b1 as int) * 0x100 + (b2 as int) - 0x10000) as i32
        } else {
            ((b1 as int) * 0x100 + (b2 as int)) as i32
        },
    }
}

/// Decode the three thermocouple temperature register bytes, most
/// significant first.
pub fn decode_thermocouple(b1: u8, b2: u8, b3: u8) -> (r: ThermocoupleTemperature)
    ensures
        r == spec_decode_thermocouple(b1, b2, b3),
        r.magnitude < 0x800000,
{
    proof {
        assert(b1 & 0x7F <= 0x7F) by (bit_vector);
    }
    ThermocoupleTemperature {
        negative: b1 & 0x80 == 0x80,
        magnitude: ((b1 & 0x7F) as u32) * 0x10000 + (b2 as u32) * 0x100 + (b3 as u32),
    }
}

/// Decode the two cold-junction temperature register bytes, most
/// significant first.
pub fn decode_cold_junction(b1: u8, b2: u8) -> (r: ColdJunctionTemperature)
    ensures
        r == spec_decode_cold_junction(b1, b2),
        -0x8000 <= r.counts < 0x8000,
{
    let raw: i32 = (b1 as i32) * 0x100 + (b2 as i32);
    ColdJunctionTemperature { counts: if b1 >= 0x80 { raw - 0x10000 } else { raw } }
}

} // verus!
