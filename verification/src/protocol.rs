//! What the driver's operations look like on the bus: which transactions
//! an operation makes, in which order, and what it returns for each reply
//! of the device.

use vstd::prelude::*;
use crate::bus::Transaction;
use crate::codec::{DecodeError, Setting};
use crate::registers::{Axes, IIC_ADDR};

verus! {

/// A failed operation: the bus reported an error, or the device held a
/// code that stands for no member of the setting that was asked for.
#[derive(Debug, PartialEq, Eq)]
pub enum Error<E> {
    Bus(E),
    Decode(DecodeError),
}

/// The transaction reads `count` registers of the device from `reg` on: it
/// goes to the device's address, sends the register's address and nothing
/// else, and asks for `count` bytes. A reply holds that many.
pub open spec fn is_read<E>(transaction: Transaction<E>, reg: u8, count: nat) -> bool {
    &&& transaction matches Transaction::WriteRead { address, sent, count: asked, reply }
    &&& address == IIC_ADDR
    &&& sent == seq![reg]
    &&& asked == count
    &&& reply matches Ok(data) ==> data.len() == count
}

/// The transaction that writes `value` to the register `reg` of the device
/// and ends with `outcome`: the register's address, then the value.
pub open spec fn write_of<E>(reg: u8, value: u8, outcome: Result<(), E>) -> Transaction<E> {
    Transaction::Write { address: IIC_ADDR, sent: seq![reg, value], outcome }
}

/// Exactly one transaction was made: a read of `count` registers from `reg`
/// on.
pub open spec fn reads_once<E>(issued: Seq<Transaction<E>>, reg: u8, count: nat) -> bool {
    issued.len() == 1 && is_read(issued[0], reg, count)
}

/// Exactly one transaction was made, the write of `value` to `reg`, with
/// no read before it, and its outcome is the result.
pub open spec fn writes_once<E>(
    issued: Seq<Transaction<E>>,
    reg: u8,
    value: u8,
    result: Result<(), E>,
) -> bool {
    issued.len() == 1 && issued[0] == write_of(reg, value, result)
}

/// A read-modify-write of the field under `field_mask` of the register
/// `reg`. The register is read first. If that fails, nothing else happens:
/// no write is made and the error is the result. Otherwise the byte that
/// was read is written back with `value_bits` packed over it, and the
/// outcome of that write is the result.
pub open spec fn read_modify_write<E>(
    issued: Seq<Transaction<E>>,
    reg: u8,
    field_mask: u8,
    value_bits: u8,
    result: Result<(), E>,
) -> bool {
    &&& issued.len() >= 1
    &&& is_read(issued[0], reg, 1)
    &&& match issued[0].reply() {
        Err(error) => issued.len() == 1 && result == Err::<(), E>(error),
        Ok(data) => issued.len() == 2 && issued[1] == write_of(
            reg,
            crate::codec::spec_pack(data[0], field_mask, value_bits),
            result,
        ),
    }
}

/// Where a write followed the read, the byte that was written has, outside
/// the field under `field_mask`, every bit of the byte that was read.
pub open spec fn keeps_other_bits<E>(issued: Seq<Transaction<E>>, field_mask: u8) -> bool {
    issued.len() == 2 ==> {
        &&& issued[0].reply() matches Ok(data)
        &&& issued[1] matches Transaction::Write { sent, .. }
        &&& sent.len() == 2
        &&& sent[1] & !field_mask == data[0] & !field_mask
    }
}

/// A read-modify-write that stores a member of a setting in its field.
pub open spec fn stores<S: Setting, E>(
    issued: Seq<Transaction<E>>,
    member: S,
    result: Result<(), E>,
) -> bool {
    read_modify_write(
        issued,
        S::home().addr(),
        S::field_mask(),
        member.code() << S::field_shift(),
        result,
    )
}

/// The first byte of a reply, or its error.
pub open spec fn first_byte<E>(reply: Result<Seq<u8>, E>) -> Result<u8, E> {
    match reply {
        Ok(data) => Ok(data[0]),
        Err(error) => Err(error),
    }
}

/// Whether the register that was read has a bit of `bit_mask` set, or the
/// error of the read.
pub open spec fn flag_of<E>(reply: Result<Seq<u8>, E>, bit_mask: u8) -> Result<bool, E> {
    match reply {
        Ok(data) => Ok(crate::codec::spec_flag(data[0], bit_mask)),
        Err(error) => Err(error),
    }
}

/// The member of a setting that the register that was read holds, the code
/// that stands for none, or the error of the read.
pub open spec fn setting_of<S: Setting, E>(reply: Result<Seq<u8>, E>) -> Result<S, Error<E>> {
    match reply {
        Ok(data) => match crate::codec::spec_unpack::<S>(data[0]) {
            Ok(member) => Ok(member),
            Err(reserved) => Err(Error::Decode(reserved)),
        },
        Err(error) => Err(Error::Bus(error)),
    }
}

/// A result whose only error is that of the bus, among the results of
/// operations that can also fail to decode.
pub open spec fn bus_only<T, E>(result: Result<T, E>) -> Result<T, Error<E>> {
    match result {
        Ok(value) => Ok(value),
        Err(error) => Err(Error::Bus(error)),
    }
}

/// The three samples of a burst of the six data registers, as X, Y, Z, or
/// the error of the read.
pub open spec fn samples_of<E>(reply: Result<Seq<u8>, E>, result: Result<(i16, i16, i16), E>) -> bool {
    match reply {
        Ok(data) => {
            &&& result matches Ok(samples)
            &&& samples.0 == crate::measurement::spec_burst_sample(data, Axes::X)
            &&& samples.1 == crate::measurement::spec_burst_sample(data, Axes::Y)
            &&& samples.2 == crate::measurement::spec_burst_sample(data, Axes::Z)
        },
        Err(error) => result == Err::<(i16, i16, i16), E>(error),
    }
}

/// Registers read one after the other, each in a transaction of its own,
/// up to the first that fails: `issued` holds a read of each of the first
/// registers of `regs`, every one but the last has a reply, and if the last
/// has one too then all of `regs` were read.
pub open spec fn reads_in_turn<E>(issued: Seq<Transaction<E>>, regs: Seq<u8>) -> bool {
    &&& 1 <= issued.len() <= regs.len()
    &&& forall|i: int| 0 <= i < issued.len() ==> is_read(#[trigger] issued[i], regs[i], 1)
    &&& forall|i: int| 0 <= i < issued.len() - 1 ==> (#[trigger] issued[i]).reply() is Ok
    &&& issued.last().reply() is Ok ==> issued.len() == regs.len()
}

/// The bytes that reads in turn brought, one of each register, or the
/// error of the read that failed.
pub open spec fn bytes_in_turn<E>(issued: Seq<Transaction<E>>) -> Result<Seq<u8>, E> {
    match issued.last().reply() {
        Ok(_) => Ok(Seq::new(issued.len(), |i: int| issued[i].reply()->Ok_0[0])),
        Err(error) => Err(error),
    }
}

/// A read-modify-write whose read succeeded made exactly two transactions,
/// the read and then the write. The byte that was written has the value's
/// bits in the field and, outside the field, every bit of the byte that was
/// read.
pub proof fn lemma_read_modify_write_keeps_other_bits<E>(
    issued: Seq<Transaction<E>>,
    reg: u8,
    field_mask: u8,
    value_bits: u8,
    result: Result<(), E>,
)
    requires
        read_modify_write(issued, reg, field_mask, value_bits, result),
        issued[0].reply() is Ok,
        value_bits & !field_mask == 0,
    ensures
        issued.len() == 2,
        is_read(issued[0], reg, 1),
        issued[1] is Write,
        issued[1]->Write_address == IIC_ADDR,
        issued[1]->Write_sent.len() == 2,
        issued[1]->Write_sent[0] == reg,
        issued[1]->Write_sent[1] & !field_mask == issued[0].reply()->Ok_0[0] & !field_mask,
        issued[1]->Write_sent[1] & field_mask == value_bits,
        issued[1]->outcome == result,
{
    crate::codec::lemma_pack_keeps_other_bits(issued[0].reply()->Ok_0[0], field_mask, value_bits);
}

/// A read-modify-write whose read failed made no write: the read is the
/// only transaction, and its error is the result.
pub proof fn lemma_failed_read_stops_the_write<E>(
    issued: Seq<Transaction<E>>,
    reg: u8,
    field_mask: u8,
    value_bits: u8,
    result: Result<(), E>,
)
    requires
        read_modify_write(issued, reg, field_mask, value_bits, result),
        issued[0].reply() is Err,
    ensures
        issued.len() == 1,
        forall|i: int| 0 <= i < issued.len() ==> !(issued[i] is Write),
        result == Err::<(), E>(issued[0].reply()->Err_0),
{
}

/// Storing a member of a setting, when the read succeeds, writes a byte
/// that holds the member and, outside the setting's field, every bit of
/// the byte that was read.
pub proof fn lemma_stored_member_reads_back<S: Setting, E>(
    issued: Seq<Transaction<E>>,
    member: S,
    result: Result<(), E>,
)
    requires
        stores(issued, member, result),
        issued[0].reply() is Ok,
    ensures
        issued.len() == 2,
        is_read(issued[0], S::home().addr(), 1),
        issued[1] is Write,
        issued[1]->Write_sent.len() == 2,
        issued[1]->Write_sent[0] == S::home().addr(),
        crate::codec::spec_unpack::<S>(issued[1]->Write_sent[1]) == Ok::<S, DecodeError>(member),
        issued[1]->Write_sent[1] & !S::field_mask() == issued[0].reply()->Ok_0[0]
            & !S::field_mask(),
{
    crate::codec::lemma_unpack_of_pack(issued[0].reply()->Ok_0[0], member);
}

} // verus!
