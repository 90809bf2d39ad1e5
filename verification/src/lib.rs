//! Register-level driver core for the MAX31856 thermocouple-to-digital
//! converter.
//!
//! The driver packs a typed options record into the two control-register
//! bytes, issues fixed-address register transfers over an abstract
//! synchronous bus port, and decodes the raw signed fixed-point register
//! payloads it reads back. The physical bus transport and the fault
//! interrupt line are collaborators supplied by the caller through the
//! ports in [`bus`].

use vstd::prelude::*;

pub mod bus;
pub mod configuration;
pub mod fault;
pub mod registers;
pub mod scripted;
pub mod temperature;

pub use bus::FaultPin;
pub use bus::SpiTransport;
pub use bus::Transaction;
pub use configuration::AveragingMode;
pub use configuration::CMode;
pub use configuration::FaultModes;
pub use configuration::Max31856Options;
pub use configuration::NoiseRejectionMode;
pub use configuration::OCFaultModes;
pub use configuration::OneShot;
pub use configuration::ThermocoupleType;
pub use fault::classify_status;
pub use fault::spec_classify;
pub use fault::DeviceErrors;
pub use fault::FaultBits;
pub use registers::ReadOnlyRegister;
pub use registers::ReadWriteRegister;
pub use registers::Registers;
pub use scripted::Expectation;
pub use scripted::IdlePin;
pub use scripted::ScriptedBus;
pub use temperature::decode_cold_junction;
pub use temperature::decode_thermocouple;
pub use temperature::spec_decode_cold_junction;
pub use temperature::spec_decode_thermocouple;
pub use temperature::ColdJunctionTemperature;
pub use temperature::ThermocoupleTemperature;

verus! {

/// Errors surfaced by the driver.
#[derive(Debug)]
pub enum Error {
    /// The bus transport reported a failure.
    Spi,
    /// The fault-pin handle reported a failure.
    Pin,
    /// An invalid argument was supplied. Reserved for future parameterized
    /// operations; no current operation produces it.
    InvalidArgument,
    /// The device reported one or more faults. If the over/undervoltage
    /// flag is set, the other flags were unreliable and are left clear.
    Device(DeviceErrors),
}

/// The configuration record as a temperature read leaves it: reading in
/// normally-off mode forces the one-shot trigger on, and the record keeps
/// that trigger afterwards; in automatic mode the record is untouched.
pub open spec fn spec_config_after_read(c: Max31856Options) -> Max31856Options {
    if c.conversion_mode is NormallyOff {
        Max31856Options { one_shot_conversion: OneShot::OneShotConversion, ..c }
    } else {
        c
    }
}

/// The transaction log after the one-shot trigger write that a
/// normally-off temperature read issues; in automatic mode no write
/// precedes the read and the log is unchanged.
pub open spec fn spec_trigger_log(c: Max31856Options, log: Seq<Transaction>) -> Seq<Transaction> {
    if c.conversion_mode is NormallyOff {
        log.push(Transaction::Write { frame: seq![0x80u8, spec_config_after_read(c).spec_c0()] })
    } else {
        log
    }
}

/// Holds when log `after` is log `before` extended by exactly one
/// full-duplex transfer that sent `sent` and received as many bytes back.
pub open spec fn spec_reads_once(
    before: Seq<Transaction>,
    after: Seq<Transaction>,
    sent: Seq<u8>,
) -> bool {
    &&& after.len() == before.len() + 1
    &&& after.drop_last() == before
    &&& (after.last() matches Transaction::Transfer { sent: s, received } && s == sent
        && received.len() == sent.len())
}

/// The bytes the last transaction of `log` received; meaningful only when
/// that transaction is a transfer.
pub open spec fn spec_last_received(log: Seq<Transaction>) -> Seq<u8> {
    match log.last() {
        Transaction::Transfer { received, .. } => received,
        Transaction::Write { .. } => Seq::empty(),
    }
}

/// What a fault-status query returns for a given raw status byte: success
/// when no fault bit is asserted, otherwise the classified flag record.
pub open spec fn spec_fault_result(status: u8) -> Result<(), Error> {
    match fault::spec_classify(status) {
        Option::None => Ok(()),
        Option::Some(errors) => Err(Error::Device(errors)),
    }
}

/// Law: the register byte of a one-shot trigger write always carries the
/// trigger bit, bit 6, set.
pub proof fn lemma_one_shot_trigger_bit(c: Max31856Options)
    ensures
        spec_config_after_read(c).spec_c0() & 0x40 == if c.conversion_mode is NormallyOff {
            0x40u8
        } else {
            c.spec_c0() & 0x40
        },
{
    let t = spec_config_after_read(c);
    let cm = t.conversion_mode.value();
    let oc = t.open_circuit_fault_det.value();
    let cj: u8 = if t.cold_junction_sensor_disable { 1 } else { 0 };
    let fm = t.fault_mode.value();
    let nr = t.noise_rejection_frequency.value();
    if c.conversion_mode is NormallyOff {
        assert(t.one_shot_conversion.value() == 1);
        assert(((cm * 0x80 + 1 * 0x40 + oc * 0x10 + cj * 0x08 + fm * 0x04 + nr) as u8) & 0x40
            == 0x40) by (bit_vector)
            requires
                cm <= 1 && oc <= 3 && cj <= 1 && fm <= 1 && nr <= 1,
        ;
    }
}

/// The driver: owns the bus transport, the fault-pin handle and the
/// configuration record it writes to the device.
pub struct Max31856<SPI, FP> {
    /// The bus transport handle, exclusively owned for the driver's
    /// lifetime.
    pub spi: SPI,
    /// The fault interrupt input, stored for a future interrupt-driven
    /// mode; no current operation polls it.
    pub fault: FP,
    /// The configuration record that `send_config` writes to the device.
    pub config: Max31856Options,
}

impl<SPI: SpiTransport, FP: FaultPin> Max31856<SPI, FP> {
    /// Create a driver over the given transport and fault pin, holding the
    /// documented default configuration.
    pub fn new(spi: SPI, fault_pin: FP) -> (r: Self)
        ensures
            r.spi == spi,
            r.fault == fault_pin,
            r.config == Max31856Options::spec_default(),
    {
        Max31856 { spi, fault: fault_pin, config: Max31856Options::new() }
    }

    /// Write the packed low control-register byte to the device.
    fn send_c0(&mut self) -> (r: Result<(), Error>)
        ensures
            final(self).config == old(self).config,
            final(self).fault == old(self).fault,
            r is Ok ==> final(self).spi.transactions() == old(self).spi.transactions().push(
                Transaction::Write { frame: seq![0x80u8, old(self).config.spec_c0()] },
            ),
            r matches Err(e) ==> e == Error::Spi && final(self).spi.transactions() == old(
                self,
            ).spi.transactions(),
    {
        let mut frame: Vec<u8> = Vec::new();
        frame.push(Registers::cr0().write_address);
        frame.push(self.config.extract_c0());
        proof {
            assert(frame@ =~= seq![0x80u8, self.config.spec_c0()]);
        }
        match self.spi.write(&frame) {
            Ok(()) => Ok(()),
            Err(()) => Err(Error::Spi),
        }
    }

    /// Write the packed high control-register byte to the device.
    fn send_c1(&mut self) -> (r: Result<(), Error>)
        ensures
            final(self).config == old(self).config,
            final(self).fault == old(self).fault,
            r is Ok ==> final(self).spi.transactions() == old(self).spi.transactions().push(
                Transaction::Write { frame: seq![0x81u8, old(self).config.spec_c1()] },
            ),
            r matches Err(e) ==> e == Error::Spi && final(self).spi.transactions() == old(
                self,
            ).spi.transactions(),
    {
        let mut frame: Vec<u8> = Vec::new();
        frame.push(Registers::cr1().write_address);
        frame.push(self.config.extract_c1());
        proof {
            assert(frame@ =~= seq![0x81u8, self.config.spec_c1()]);
        }
        match self.spi.write(&frame) {
            Ok(()) => Ok(()),
            Err(()) => Err(Error::Spi),
        }
    }

    /// Write the stored configuration to the device: the low control
    /// register first, then the high one, as two bus write transactions.
    ///
    /// If the first write succeeds and the second fails, the device is
    /// left with only the low register updated; that is the documented
    /// behaviour, and the log in the postcondition shows which writes
    /// completed.
    pub fn send_config(&mut self) -> (r: Result<(), Error>)
        ensures
            final(self).config == old(self).config,
            final(self).fault == old(self).fault,
            r is Ok ==> final(self).spi.transactions() == old(self).spi.transactions().push(
                Transaction::Write { frame: seq![0x80u8, old(self).config.spec_c0()] },
            ).push(Transaction::Write { frame: seq![0x81u8, old(self).config.spec_c1()] }),
            r matches Err(e) ==> e == Error::Spi && (final(self).spi.transactions() == old(
                self,
            ).spi.transactions() || final(self).spi.transactions() == old(
                self,
            ).spi.transactions().push(
                Transaction::Write { frame: seq![0x80u8, old(self).config.spec_c0()] },
            )),
    {
        match self.send_c0() {
            Ok(()) => self.send_c1(),
            Err(e) => Err(e),
        }
    }

    /// Expose the stored configuration record for the caller to adjust;
    /// touching it does not touch the bus until `send_config` is called.
    pub fn config(&mut self) -> (r: &mut Max31856Options)
        ensures
            *r == old(self).config,
            final(self).config == *final(r),
            final(self).spi == old(self).spi,
            final(self).fault == old(self).fault,
    {
        &mut self.config
    }

    /// Read the linearized, cold-junction-compensated thermocouple
    /// temperature.
    ///
    /// In normally-off mode this first forces the one-shot trigger into
    /// the stored low control register and writes that register, which
    /// starts a conversion the device needs up to about 169 ms to finish;
    /// the driver does not wait, so the caller must allow for settling
    /// time or use automatic mode. In automatic mode no write precedes the
    /// read. The read itself is one four-byte transfer starting at the
    /// temperature register, whose three payload bytes are decoded as sign
    /// and magnitude.
    pub fn temperature(&mut self) -> (r: Result<ThermocoupleTemperature, Error>)
        ensures
            final(self).fault == old(self).fault,
            final(self).config == spec_config_after_read(old(self).config),
            r matches Err(e) ==> e == Error::Spi && (final(self).spi.transactions() == old(
                self,
            ).spi.transactions() || final(self).spi.transactions() == spec_trigger_log(
                old(self).config,
                old(self).spi.transactions(),
            )),
            r matches Ok(t) ==> spec_reads_once(
                spec_trigger_log(old(self).config, old(self).spi.transactions()),
                final(self).spi.transactions(),
                seq![0x0Cu8, 0u8, 0u8, 0u8],
            ) && t == spec_decode_thermocouple(
                spec_last_received(final(self).spi.transactions())[1],
                spec_last_received(final(self).spi.transactions())[2],
                spec_last_received(final(self).spi.transactions())[3],
            ),
    {
        let cmode = self.config.conversion_mode;
        match cmode {
            CMode::NormallyOff => {
                self.config.one_shot_conversion = OneShot::OneShotConversion;
                match self.send_c0() {
                    Ok(()) => {}
                    Err(e) => {
                        return Err(e);
                    }
                }
            }
            CMode::AutomaticConversion => {}
        }
        let ghost trigger_log = self.spi.transactions();
        let mut buffer: Vec<u8> = Vec::new();
        buffer.push(Registers::ltcbh().read_address);
        buffer.push(0);
        buffer.push(0);
        buffer.push(0);
        proof {
            assert(buffer@ =~= seq![0x0Cu8, 0u8, 0u8, 0u8]);
        }
        match self.spi.transfer_in_place(&mut buffer) {
            Ok(()) => {}
            Err(()) => {
                return Err(Error::Spi);
            }
        }
        proof {
            assert(self.spi.transactions().drop_last() =~= trigger_log);
        }
        Ok(decode_thermocouple(buffer[1], buffer[2], buffer[3]))
    }

    /// Read the cold-junction temperature: one three-byte transfer
    /// starting at the cold-junction register, whose two payload bytes are
    /// decoded as a big-endian two's-complement count of 1/256 degree
    /// Celsius. No conversion is triggered first; in normally-off mode the
    /// value is whatever the last conversion left behind.
    pub fn cold_junction_temperature(&mut self) -> (r: Result<ColdJunctionTemperature, Error>)
        ensures
            final(self).fault == old(self).fault,
            final(self).config == old(self).config,
            r matches Err(e) ==> e == Error::Spi && final(self).spi.transactions() == old(
                self,
            ).spi.transactions(),
            r matches Ok(t) ==> spec_reads_once(
                old(self).spi.transactions(),
                final(self).spi.transactions(),
                seq![0x0Au8, 0u8, 0u8],
            ) && t == spec_decode_cold_junction(
                spec_last_received(final(self).spi.transactions())[1],
                spec_last_received(final(self).spi.transactions())[2],
            ),
    {
        let ghost log0 = self.spi.transactions();
        let mut buffer: Vec<u8> = Vec::new();
        buffer.push(Registers::cjth().read_address);
        buffer.push(0);
        buffer.push(0);
        proof {
            assert(buffer@ =~= seq![0x0Au8, 0u8, 0u8]);
        }
        match self.spi.transfer_in_place(&mut buffer) {
            Ok(()) => {}
            Err(()) => {
                return Err(Error::Spi);
            }
        }
        proof {
            assert(self.spi.transactions().drop_last() =~= log0);
        }
        Ok(decode_cold_junction(buffer[1], buffer[2]))
    }

    /// Query the fault status register and classify its byte: success when
    /// no fault bit is asserted, the populated flag record otherwise, with
    /// the over/undervoltage bit taking precedence over all others.
    pub fn fault_status(&mut self) -> (r: Result<(), Error>)
        ensures
            final(self).fault == old(self).fault,
            final(self).config == old(self).config,
            ({
                let log0 = old(self).spi.transactions();
                let log1 = final(self).spi.transactions();
                ||| (log1 == log0 && r == Err::<(), Error>(Error::Spi))
                ||| (spec_reads_once(log0, log1, seq![0x0Fu8, 0u8]) && r == spec_fault_result(
                    spec_last_received(log1)[1],
                ))
            }),
    {
        let ghost log0 = self.spi.transactions();
        let mut buffer: Vec<u8> = Vec::new();
        buffer.push(Registers::sr().read_address);
        buffer.push(0);
        proof {
            assert(buffer@ =~= seq![0x0Fu8, 0u8]);
        }
        match self.spi.transfer_in_place(&mut buffer) {
            Ok(()) => {}
            Err(()) => {
                return Err(Error::Spi);
            }
        }
        proof {
            assert(self.spi.transactions().drop_last() =~= log0);
        }
        match fault::classify_status(buffer[1]) {
            None => Ok(()),
            Some(errors) => Err(Error::Device(errors)),
        }
    }
}

} // verus!
