//! The handle of the device: its operations, each made of transactions on
//! the bus that the handle owns.
//!
//! The handle keeps no copy of what the device holds. Every query reads
//! the device, and every setter but `set_gain` reads the register it
//! changes before it writes it. What an operation did on the bus is stated
//! over the handle's `transactions`.

use vstd::prelude::*;
use crate::bus::{issued, I2cBus, Recorded, Transaction};
use crate::codec::{flag, flag_bits, pack, spec_flag_bits, unpack, value_bits, Setting};
use crate::measurement::{decode_burst, sample_from_bytes, spec_sample};
use crate::protocol::{
    bus_only, bytes_in_turn, first_byte, flag_of, keeps_other_bits, read_modify_write,
    reads_in_turn, reads_once, samples_of, setting_of, stores, writes_once, Error,
};
use crate::registers::{Axes, Registers, IIC_ADDR, MODE_HS, STATUS_LOCKED, STATUS_READY};
use crate::settings::{
    lemma_gain_always_decodes, AveragedSamples, Gain, MeasurementModes, OperationModes, OutputRates,
};

verus! {

/// The device on its bus.
pub struct Hmc5883l<I2C: I2cBus> {
    i2c: Recorded<I2C>,
}

impl<I2C: I2cBus> Hmc5883l<I2C> {
    /// Every transaction that the handle has made on its bus, oldest first.
    pub closed spec fn transactions(self) -> Seq<Transaction<I2C::Error>> {
        self.i2c.log()
    }

    /// The transactions that the handle has made since it was `before`.
    pub open spec fn since(self, before: Self) -> Seq<Transaction<I2C::Error>> {
        issued(before.transactions(), self.transactions())
    }

    /// The handle still holds every transaction that it held when it was
    /// `before`, in the same order and in front of the later ones.
    pub open spec fn continues(self, before: Self) -> bool {
        before.transactions().is_prefix_of(self.transactions())
    }

    /// Takes the bus. No transaction is made.
    pub fn new(i2c: I2C) -> (handle: Self)
        ensures
            handle.transactions() == Seq::<Transaction<I2C::Error>>::empty(),
    {
        Hmc5883l { i2c: Recorded::new(i2c) }
    }

    /// Reads one register.
    fn read_reg(&mut self, reg: u8) -> (result: Result<u8, I2C::Error>)
        ensures
            final(self).continues(*old(self)),
            reads_once(final(self).since(*old(self)), reg, 1),
            result == first_byte(final(self).since(*old(self))[0].reply()),
    {
        let mut buf: [u8; 1] = [0; 1];
        let out: [u8; 1] = [reg];
        let outcome = self.i2c.write_read(IIC_ADDR, &out, &mut buf);
        proof {
            assert(out@ =~= seq![reg]);
            assert(self.since(*old(self)) =~= seq![self.transactions().last()]);
        }
        match outcome {
            Ok(_) => Ok(buf[0]),
            Err(error) => Err(error),
        }
    }

    /// Writes one register.
    fn write_reg(&mut self, reg: u8, value: u8) -> (result: Result<(), I2C::Error>)
        ensures
            final(self).continues(*old(self)),
            writes_once(final(self).since(*old(self)), reg, value, result),
    {
        let out: [u8; 2] = [reg, value];
        let outcome = self.i2c.write(IIC_ADDR, &out);
        proof {
            assert(out@ =~= seq![reg, value]);
            assert(self.since(*old(self)) =~= seq![self.transactions().last()]);
        }
        outcome
    }

    /// Reads a register, packs `value_bits` over the field under
    /// `field_mask`, and writes the register back. If the read fails, no
    /// write is made.
    fn update_reg(&mut self, reg: u8, field_mask: u8, value_bits: u8) -> (result: Result<
        (),
        I2C::Error,
    >)
        ensures
            final(self).continues(*old(self)),
            read_modify_write(final(self).since(*old(self)), reg, field_mask, value_bits, result),
            value_bits & !field_mask == 0 ==> keeps_other_bits(
                final(self).since(*old(self)),
                field_mask,
            ),
    {
        let current: u8 = match self.read_reg(reg) {
            Ok(byte) => byte,
            Err(error) => {
                return Err(error);
            },
        };
        let ghost read = *self;
        let result = self.write_reg(reg, pack(current, field_mask, value_bits));
        proof {
            assert(self.since(*old(self)) =~= read.since(*old(self)) + self.since(read));
        }
        result
    }

    /// Stores a member of a setting in its field, by a read-modify-write of
    /// the register that holds it.
    fn store<S: Setting>(&mut self, member: S) -> (result: Result<(), I2C::Error>)
        ensures
            final(self).continues(*old(self)),
            stores(final(self).since(*old(self)), member, result),
            keeps_other_bits(final(self).since(*old(self)), S::field_mask()),
    {
        let reg: u8 = S::register().addr();
        let field_mask: u8 = S::mask();
        self.update_reg(reg, field_mask, value_bits(member))
    }

    /// Reads the register that holds a setting and decodes the member in
    /// its field.
    fn load<S: Setting>(&mut self) -> (result: Result<S, Error<I2C::Error>>)
        ensures
            final(self).continues(*old(self)),
            reads_once(final(self).since(*old(self)), S::home().addr(), 1),
            result == setting_of::<S, I2C::Error>(final(self).since(*old(self))[0].reply()),
    {
        match self.read_reg(S::register().addr()) {
            Ok(byte) => match unpack::<S>(byte) {
                Ok(member) => Ok(member),
                Err(reserved) => Err(Error::Decode(reserved)),
            },
            Err(error) => Err(Error::Bus(error)),
        }
    }

    /// Reads a register and tests the bits of `bit_mask` in it.
    fn read_flag(&mut self, reg: u8, bit_mask: u8) -> (result: Result<bool, I2C::Error>)
        ensures
            final(self).continues(*old(self)),
            reads_once(final(self).since(*old(self)), reg, 1),
            result == flag_of(final(self).since(*old(self))[0].reply(), bit_mask),
    {
        match self.read_reg(reg) {
            Ok(byte) => Ok(flag(byte, bit_mask)),
            Err(error) => Err(error),
        }
    }

    /// Switches the high-speed bus mode flag of the mode register on or
    /// off and leaves the other bits of the register as they are.
    ///
    /// The register is read and then written. If the read fails, nothing
    /// is written.
    pub fn write_hs_mode(&mut self, is_hs: bool) -> (result: Result<(), I2C::Error>)
        ensures
            final(self).continues(*old(self)),
            read_modify_write(
                final(self).since(*old(self)),
                Registers::Mode.addr(),
                MODE_HS,
                spec_flag_bits(MODE_HS, is_hs),
                result,
            ),
            keeps_other_bits(final(self).since(*old(self)), MODE_HS),
    {
        self.update_reg(Registers::Mode.addr(), MODE_HS, flag_bits(MODE_HS, is_hs))
    }

    /// Puts the device into an operating mode. Any mode may follow any
    /// other. The other bits of the mode register stay as they are.
    ///
    /// The register is read and then written. If the read fails, nothing
    /// is written.
    pub fn set_operating_mode(&mut self, mode: OperationModes) -> (result: Result<(), I2C::Error>)
        ensures
            final(self).continues(*old(self)),
            stores(final(self).since(*old(self)), mode, result),
            keeps_other_bits(final(self).since(*old(self)), OperationModes::field_mask()),
    {
        self.store(mode)
    }

    /// Reads one axis: the high byte, then the low byte, each in a
    /// transaction of its own. The device may write a new measurement
    /// between the two; `get_angles` reads all axes in one transaction.
    ///
    /// If the first read fails, the second is not made.
    pub fn get_angle(&mut self, axis: Axes) -> (result: Result<i16, I2C::Error>)
        ensures
            final(self).continues(*old(self)),
            reads_in_turn(
                final(self).since(*old(self)),
                seq![axis.high().addr(), axis.low().addr()],
            ),
            match bytes_in_turn(final(self).since(*old(self))) {
                Ok(bytes) => result matches Ok(sample) && sample == spec_sample(bytes[0], bytes[1]),
                Err(error) => result == Err::<i16, I2C::Error>(error),
            },
    {
        let regs: (u8, u8) = axis.get_regs8();
        let hi: u8 = match self.read_reg(regs.0) {
            Ok(byte) => byte,
            Err(error) => {
                return Err(error);
            },
        };
        let ghost first = *self;
        let lo: u8 = match self.read_reg(regs.1) {
            Ok(byte) => byte,
            Err(error) => {
                proof {
                    assert(self.since(*old(self)) =~= first.since(*old(self)) + self.since(first));
                }
                return Err(error);
            },
        };
        proof {
            assert(self.since(*old(self)) =~= first.since(*old(self)) + self.since(first));
        }
        Ok(sample_from_bytes(hi, lo))
    }

    /// Reads the three axes in one transaction, a burst of the six data
    /// registers, and returns the samples as X, Y, Z.
    pub fn get_angles(&mut self) -> (result: Result<(i16, i16, i16), I2C::Error>)
        ensures
            final(self).continues(*old(self)),
            reads_once(final(self).since(*old(self)), Registers::HiX.addr(), 6),
            samples_of(final(self).since(*old(self))[0].reply(), result),
    {
        let mut buf: [u8; 6] = [0; 6];
        let out: [u8; 1] = [Registers::HiX.addr()];
        let outcome = self.i2c.write_read(IIC_ADDR, &out, &mut buf);
        proof {
            assert(out@ =~= seq![Registers::HiX.addr()]);
            assert(self.since(*old(self)) =~= seq![self.transactions().last()]);
        }
        match outcome {
            Ok(_) => Ok(decode_burst(&buf)),
            Err(error) => Err(error),
        }
    }

    /// Sets how many samples the device averages into one measurement. The
    /// other bits of configuration register A stay as they are.
    ///
    /// The register is read and then written. If the read fails, nothing
    /// is written.
    pub fn set_averaged_samples(&mut self, amt: AveragedSamples) -> (result: Result<
        (),
        I2C::Error,
    >)
        ensures
            final(self).continues(*old(self)),
            stores(final(self).since(*old(self)), amt, result),
            keeps_other_bits(final(self).since(*old(self)), AveragedSamples::field_mask()),
    {
        self.store(amt)
    }

    /// Sets the rate at which the device writes measurements. The other
    /// bits of configuration register A stay as they are.
    ///
    /// The register is read and then written. If the read fails, nothing
    /// is written.
    pub fn set_output_data_rate(&mut self, rate: OutputRates) -> (result: Result<(), I2C::Error>)
        ensures
            final(self).continues(*old(self)),
            stores(final(self).since(*old(self)), rate, result),
            keeps_other_bits(final(self).since(*old(self)), OutputRates::field_mask()),
    {
        self.store(rate)
    }

    /// Sets the bias that the device measures with. The other bits of
    /// configuration register A stay as they are.
    ///
    /// The register is read and then written. If the read fails, nothing
    /// is written.
    pub fn set_measurement_mode(&mut self, mode: MeasurementModes) -> (result: Result<
        (),
        I2C::Error,
    >)
        ensures
            final(self).continues(*old(self)),
            stores(final(self).since(*old(self)), mode, result),
            keeps_other_bits(final(self).since(*old(self)), MeasurementModes::field_mask()),
    {
        self.store(mode)
    }

    /// Sets the gain. The gain is all that configuration register B
    /// holds, so the register is written at once, without a read: its
    /// other bits become zero.
    pub fn set_gain(&mut self, gain: Gain) -> (result: Result<(), I2C::Error>)
        ensures
            final(self).continues(*old(self)),
            writes_once(
                final(self).since(*old(self)),
                Registers::ConB.addr(),
                gain.code() << 5,
                result,
            ),
    {
        self.write_reg(Registers::ConB.addr(), value_bits(gain))
    }

    /// Whether the data registers are locked, as the status register says.
    pub fn is_locked(&mut self) -> (result: Result<bool, I2C::Error>)
        ensures
            final(self).continues(*old(self)),
            reads_once(final(self).since(*old(self)), Registers::Status.addr(), 1),
            result == flag_of(final(self).since(*old(self))[0].reply(), STATUS_LOCKED),
    {
        self.read_flag(Registers::Status.addr(), STATUS_LOCKED)
    }

    /// Whether a measurement is ready, as the status register says.
    pub fn is_ready(&mut self) -> (result: Result<bool, I2C::Error>)
        ensures
            final(self).continues(*old(self)),
            reads_once(final(self).since(*old(self)), Registers::Status.addr(), 1),
            result == flag_of(final(self).since(*old(self))[0].reply(), STATUS_READY),
    {
        self.read_flag(Registers::Status.addr(), STATUS_READY)
    }

    /// Reads the three identification registers, each in a transaction of
    /// its own, and returns their bytes in the order A, B, C.
    ///
    /// After a read that fails, no further read is made.
    pub fn identify(&mut self) -> (result: Result<[u8; 3], I2C::Error>)
        ensures
            final(self).continues(*old(self)),
            reads_in_turn(
                final(self).since(*old(self)),
                seq![Registers::IdA.addr(), Registers::IdB.addr(), Registers::IdC.addr()],
            ),
            match bytes_in_turn(final(self).since(*old(self))) {
                Ok(bytes) => result matches Ok(id) && id@ == bytes,
                Err(error) => result == Err::<[u8; 3], I2C::Error>(error),
            },
    {
        let id_a: u8 = match self.read_reg(Registers::IdA.addr()) {
            Ok(byte) => byte,
            Err(error) => {
                return Err(error);
            },
        };
        let ghost first = *self;
        let id_b: u8 = match self.read_reg(Registers::IdB.addr()) {
            Ok(byte) => byte,
            Err(error) => {
                proof {
                    assert(self.since(*old(self)) =~= first.since(*old(self)) + self.since(first));
                }
                return Err(error);
            },
        };
        let ghost second = *self;
        proof {
            assert(second.since(*old(self)) =~= first.since(*old(self)) + second.since(first));
        }
        let id_c: u8 = match self.read_reg(Registers::IdC.addr()) {
            Ok(byte) => byte,
            Err(error) => {
                proof {
                    assert(self.since(*old(self)) =~= second.since(*old(self)) + self.since(
                        second,
                    ));
                }
                return Err(error);
            },
        };
        proof {
            assert(self.since(*old(self)) =~= second.since(*old(self)) + self.since(second));
        }
        let id: [u8; 3] = [id_a, id_b, id_c];
        proof {
            assert(id@ =~= bytes_in_turn(self.since(*old(self)))->Ok_0);
        }
        Ok(id)
    }

    /// Whether the high-speed bus mode flag of the mode register is set.
    pub fn is_hs(&mut self) -> (result: Result<bool, I2C::Error>)
        ensures
            final(self).continues(*old(self)),
            reads_once(final(self).since(*old(self)), Registers::Mode.addr(), 1),
            result == flag_of(final(self).since(*old(self))[0].reply(), MODE_HS),
    {
        self.read_flag(Registers::Mode.addr(), MODE_HS)
    }

    /// Reads the output rate back from configuration register A. The
    /// reserved code is a decode error.
    pub fn get_output_data_rate(&mut self) -> (result: Result<OutputRates, Error<I2C::Error>>)
        ensures
            final(self).continues(*old(self)),
            reads_once(final(self).since(*old(self)), Registers::ConA.addr(), 1),
            result == setting_of::<OutputRates, I2C::Error>(
                final(self).since(*old(self))[0].reply(),
            ),
    {
        self.load::<OutputRates>()
    }

    /// Reads the measurement mode back from configuration register A. The
    /// reserved code is a decode error.
    pub fn get_measurement_mode(&mut self) -> (result: Result<
        MeasurementModes,
        Error<I2C::Error>,
    >)
        ensures
            final(self).continues(*old(self)),
            reads_once(final(self).since(*old(self)), Registers::ConA.addr(), 1),
            result == setting_of::<MeasurementModes, I2C::Error>(
                final(self).since(*old(self))[0].reply(),
            ),
    {
        self.load::<MeasurementModes>()
    }

    /// Reads the gain back from configuration register B. Every code of
    /// the field is a gain, so only the bus can fail.
    pub fn get_gain(&mut self) -> (result: Result<Gain, I2C::Error>)
        ensures
            final(self).continues(*old(self)),
            reads_once(final(self).since(*old(self)), Registers::ConB.addr(), 1),
            bus_only(result) == setting_of::<Gain, I2C::Error>(
                final(self).since(*old(self))[0].reply(),
            ),
    {
        match self.read_reg(Registers::ConB.addr()) {
            Ok(byte) => match unpack::<Gain>(byte) {
                Ok(gain) => Ok(gain),
                Err(_) => {
                    proof {
                        lemma_gain_always_decodes(byte);
                    }
                    unreached()
                },
            },
            Err(error) => Err(error),
        }
    }
}

} // verus!
