use vstd::prelude::*;

verus! {

/// A register that can be both read and written. By the device family's
/// convention the write address is the read address with the high bit set.
pub struct ReadWriteRegister {
    /// First byte of a read transaction.
    pub read_address: u8,
    /// First byte of a write transaction.
    pub write_address: u8,
    /// The value the register holds after power-up.
    pub factory_default: u8,
}

/// A register that can only be read.
pub struct ReadOnlyRegister {
    /// First byte of a read transaction.
    pub read_address: u8,
}

/// The device's register map, fixed by hardware.
pub struct Registers {}

impl Registers {
    /// Configuration 0 register.
    pub fn cr0() -> (r: ReadWriteRegister)
        ensures
            r.read_address == 0x00,
            r.write_address == 0x80,
            r.factory_default == 0x00,
    {
        ReadWriteRegister { read_address: 0x00, write_address: 0x80, factory_default: 0x00 }
    }

    /// Configuration 1 register.
    pub fn cr1() -> (r: ReadWriteRegister)
        ensures
            r.read_address == 0x01,
            r.write_address == 0x81,
            r.factory_default == 0x03,
    {
        ReadWriteRegister { read_address: 0x01, write_address: 0x81, factory_default: 0x03 }
    }

    /// Fault mask register.
    pub fn mask() -> (r: ReadWriteRegister)
        ensures
            r.read_address == 0x02,
            r.write_address == 0x82,
            r.factory_default == 0xFF,
    {
        ReadWriteRegister { read_address: 0x02, write_address: 0x82, factory_default: 0xFF }
    }

    /// Cold-junction high fault threshold register.
    pub fn cjhf() -> (r: ReadWriteRegister)
        ensures
            r.read_address == 0x03,
            r.write_address == 0x83,
            r.factory_default == 0x7F,
    {
        ReadWriteRegister { read_address: 0x03, write_address: 0x83, factory_default: 0x7F }
    }

    /// Cold-junction low fault threshold register.
    pub fn cjlf() -> (r: ReadWriteRegister)
        ensures
            r.read_address == 0x04,
            r.write_address == 0x84,
            r.factory_default == 0xC0,
    {
        ReadWriteRegister { read_address: 0x04, write_address: 0x84, factory_default: 0xC0 }
    }

    /// Linearized temperature high fault threshold register, high byte.
    pub fn lthfth() -> (r: ReadWriteRegister)
        ensures
            r.read_address == 0x05,
            r.write_address == 0x85,
            r.factory_default == 0x7F,
    {
        ReadWriteRegister { read_address: 0x05, write_address: 0x85, factory_default: 0x7F }
    }

    /// Linearized temperature high fault threshold register, low byte.
    pub fn lthftl() -> (r: ReadWriteRegister)
        ensures
            r.read_address == 0x06,
            r.write_address == 0x86,
            r.factory_default == 0xFF,
    {
        ReadWriteRegister { read_address: 0x06, write_address: 0x86, factory_default: 0xFF }
    }

    /// Linearized temperature low fault threshold register, high byte.
    pub fn ltlfth() -> (r: ReadWriteRegister)
        ensures
            r.read_address == 0x07,
            r.write_address == 0x87,
            r.factory_default == 0x80,
    {
        ReadWriteRegister { read_address: 0x07, write_address: 0x87, factory_default: 0x80 }
    }

    /// Linearized temperature low fault threshold register, low byte.
    pub fn ltlftl() -> (r: ReadWriteRegister)
        ensures
            r.read_address == 0x08,
            r.write_address == 0x88,
            r.factory_default == 0x00,
    {
        ReadWriteRegister { read_address: 0x08, write_address: 0x88, factory_default: 0x00 }
    }

    /// Cold-junction temperature offset register.
    pub fn cjto() -> (r: ReadWriteRegister)
        ensures
            r.read_address == 0x09,
            r.write_address == 0x89,
            r.factory_default == 0x00,
    {
        ReadWriteRegister { read_address: 0x09, write_address: 0x89, factory_default: 0x00 }
    }

    /// Cold-junction temperature register, high byte.
    pub fn cjth() -> (r: ReadOnlyRegister)
        ensures
            r.read_address == 0x0A,
    {
        ReadOnlyRegister { read_address: 0x0A }
    }

    /// Cold-junction temperature register, low byte.
    pub fn cjtl() -> (r: ReadOnlyRegister)
        ensures
            r.read_address == 0x0B,
    {
        ReadOnlyRegister { read_address: 0x0B }
    }

    /// Linearized thermocouple temperature register, high byte.
    pub fn ltcbh() -> (r: ReadOnlyRegister)
        ensures
            r.read_address == 0x0C,
    {
        ReadOnlyRegister { read_address: 0x0C }
    }

    /// Linearized thermocouple temperature register, middle byte.
    pub fn ltcbm() -> (r: ReadOnlyRegister)
        ensures
            r.read_address == 0x0D,
    {
        ReadOnlyRegister { read_address: 0x0D }
    }

    /// Linearized thermocouple temperature register, low byte.
    pub fn ltcbl() -> (r: ReadOnlyRegister)
        ensures
            r.read_address == 0x0E,
    {
        ReadOnlyRegister { read_address: 0x0E }
    }

    /// Fault status register.
    pub fn sr() -> (r: ReadOnlyRegister)
        ensures
            r.read_address == 0x0F,
    {
        ReadOnlyRegister { read_address: 0x0F }
    }
}

} // verus!
