use hmc5883l_embed::registers::{MODE_HS, STATUS_LOCKED, STATUS_READY};
use hmc5883l_embed::{Axes, Registers, IIC_ADDR};

#[test]
fn device_address_is_fixed() {
    assert_eq!(IIC_ADDR, 0x1e);
}

#[test]
fn registers_have_their_addresses() {
    assert_eq!(Registers::ConA.addr(), 0x00);
    assert_eq!(Registers::ConB.addr(), 0x01);
    assert_eq!(Registers::Mode.addr(), 0x02);
    assert_eq!(Registers::HiX.addr(), 0x03);
    assert_eq!(Registers::LoX.addr(), 0x04);
    assert_eq!(Registers::HiZ.addr(), 0x05);
    assert_eq!(Registers::LoZ.addr(), 0x06);
    assert_eq!(Registers::HiY.addr(), 0x07);
    assert_eq!(Registers::LoY.addr(), 0x08);
    assert_eq!(Registers::Status.addr(), 0x09);
    assert_eq!(Registers::IdA.addr(), 0x0a);
    assert_eq!(Registers::IdB.addr(), 0x0b);
    assert_eq!(Registers::IdC.addr(), 0x0c);
}

#[test]
fn axis_registers_follow_the_device_order() {
    assert_eq!(Axes::X.get_regs8(), (0x03, 0x04));
    assert_eq!(Axes::Z.get_regs8(), (0x05, 0x06));
    assert_eq!(Axes::Y.get_regs8(), (0x07, 0x08));
}

#[test]
fn low_byte_follows_high_byte() {
    for axis in [Axes::X, Axes::Y, Axes::Z] {
        let (hi, lo) = axis.get_regs8();
        assert_eq!(lo, hi + 1);
        assert!((0x03..=0x07).contains(&hi));
    }
}

#[test]
fn flag_bits_are_single_bits() {
    assert_eq!(STATUS_READY, 0b0000_0001);
    assert_eq!(STATUS_LOCKED, 0b0000_0010);
    assert_eq!(MODE_HS, 0b1000_0000);
}
