//! The register map of the magnetometer: the bus address of the device, the
//! address of each register, and the two data registers of each axis.

use vstd::prelude::*;

verus! {

/// The 7-bit bus address of the device.
pub const IIC_ADDR: u8 = 0x1e;

/// The bit of the status register that is set while the data registers are
/// locked.
pub const STATUS_LOCKED: u8 = 0x02;

/// The bit of the status register that is set when a measurement is ready.
pub const STATUS_READY: u8 = 0x01;

/// The bit of the mode register that stands for the high-speed bus mode.
pub const MODE_HS: u8 = 0x80;

/// The registers of the device. The data registers lie in the device's
/// own order, which is X, Z, Y.
#[derive(Clone, Copy, Debug, PartialEq, Eq, Structural)]
pub enum Registers {
    ConA,
    ConB,
    Mode,
    HiX,
    LoX,
    HiZ,
    LoZ,
    HiY,
    LoY,
    Status,
    IdA,
    IdB,
    IdC,
}

impl Registers {
    /// The address of the register inside the device.
    pub open spec fn spec_addr(self) -> u8 {
        match self {
            Registers::ConA => 0x00,
            Registers::ConB => 0x01,
            Registers::Mode => 0x02,
            Registers::HiX => 0x03,
            Registers::LoX => 0x04,
            Registers::HiZ => 0x05,
            Registers::LoZ => 0x06,
            Registers::HiY => 0x07,
            Registers::LoY => 0x08,
            Registers::Status => 0x09,
            Registers::IdA => 0x0a,
            Registers::IdB => 0x0b,
            Registers::IdC => 0x0c,
        }
    }

    /// The address of the register inside the device.
    #[verifier::when_used_as_spec(spec_addr)]
    pub fn addr(self) -> (address: u8)
        ensures
            address == self.spec_addr(),
    {
        match self {
            Registers::ConA => 0x00,
            Registers::ConB => 0x01,
            Registers::Mode => 0x02,
            Registers::HiX => 0x03,
            Registers::LoX => 0x04,
            Registers::HiZ => 0x05,
            Registers::LoZ => 0x06,
            Registers::HiY => 0x07,
            Registers::LoY => 0x08,
            Registers::Status => 0x09,
            Registers::IdA => 0x0a,
            Registers::IdB => 0x0b,
            Registers::IdC => 0x0c,
        }
    }
}

/// The three axes of a measurement.
#[derive(Clone, Copy, Debug, PartialEq, Eq, Structural)]
pub enum Axes {
    X,
    Y,
    Z,
}

impl Axes {
    /// The register that holds the high byte of the axis.
    pub open spec fn high(self) -> Registers {
        match self {
            Axes::X => Registers::HiX,
            Axes::Y => Registers::HiY,
            Axes::Z => Registers::HiZ,
        }
    }

    /// The register that holds the low byte of the axis.
    pub open spec fn low(self) -> Registers {
        match self {
            Axes::X => Registers::LoX,
            Axes::Y => Registers::LoY,
            Axes::Z => Registers::LoZ,
        }
    }

    /// The place of the axis among the data registers: X comes first, then
    /// Z, then Y.
    pub open spec fn slot(self) -> int {
        match self {
            Axes::X => 0,
            Axes::Z => 1,
            Axes::Y => 2,
        }
    }

    /// The addresses of the high and the low byte of the axis, in this order.
    pub fn get_regs8(&self) -> (regs: (u8, u8))
        ensures
            regs.0 == self.high().addr(),
            regs.1 == self.low().addr(),
    {
        match self {
            Axes::X => (Registers::HiX.addr(), Registers::LoX.addr()),
            Axes::Z => (Registers::HiZ.addr(), Registers::LoZ.addr()),
            Axes::Y => (Registers::HiY.addr(), Registers::LoY.addr()),
        }
    }

    /// The data registers follow one another from `HiX` on: each axis has its
    /// high byte at an even offset and its low byte right behind it.
    pub proof fn lemma_data_registers_are_consecutive(self)
        ensures
            self.high().addr() == Registers::HiX.addr() + 2 * self.slot(),
            self.low().addr() == self.high().addr() + 1,
    {
    }
}

} // verus!
