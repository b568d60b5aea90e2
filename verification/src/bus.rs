//! The two-wire bus as the driver sees it, and a record of what went over
//! it.
//!
//! The bus itself is the caller's: anything that can carry out the two
//! kinds of transaction will do. Nothing is assumed of what a transaction
//! returns. What the driver promises about its use of the bus is stated
//! over the record that `Recorded` keeps of every transaction it makes.

use vstd::prelude::*;

verus! {

/// A bus on which devices are reached by a 7-bit address. Each call is one
/// transaction: it blocks until the transaction is over and fails as a
/// whole.
pub trait I2cBus {
    /// What a failed transaction reports.
    type Error;

    /// Sends `bytes` to the device at `address`.
    fn write(&mut self, address: u8, bytes: &[u8]) -> (outcome: Result<(), Self::Error>);

    /// Sends `bytes` to the device at `address` and then, in the same
    /// transaction, fills `buffer` with what the device sends back.
    fn write_read<const N: usize>(
        &mut self,
        address: u8,
        bytes: &[u8],
        buffer: &mut [u8; N],
    ) -> (outcome: Result<(), Self::Error>);
}

/// One transaction as it was made: what was handed to the bus, and what the
/// bus returned.
pub enum Transaction<E> {
    /// A `write` of `sent` to `address`.
    Write { address: u8, sent: Seq<u8>, outcome: Result<(), E> },
    /// A `write_read` that sent `sent` to `address` and asked for `count`
    /// bytes. The reply is the bytes that came back, or the error.
    WriteRead { address: u8, sent: Seq<u8>, count: nat, reply: Result<Seq<u8>, E> },
}

impl<E> Transaction<E> {
    /// The reply of a `write_read`. A `write` has none: for it this is the
    /// error, or no bytes.
    pub open spec fn reply(self) -> Result<Seq<u8>, E> {
        match self {
            Transaction::WriteRead { reply, .. } => reply,
            Transaction::Write { outcome: Ok(_), .. } => Ok(Seq::empty()),
            Transaction::Write { outcome: Err(error), .. } => Err(error),
        }
    }
}

/// The reply of a `write_read` that returned `outcome` and left `data` in
/// its buffer.
pub open spec fn reply_of<E>(outcome: Result<(), E>, data: Seq<u8>) -> Result<Seq<u8>, E> {
    match outcome {
        Ok(_) => Ok(data),
        Err(error) => Err(error),
    }
}

/// The transactions that `after` holds beyond those of `before`.
pub open spec fn issued<E>(before: Seq<Transaction<E>>, after: Seq<Transaction<E>>) -> Seq<
    Transaction<E>,
> {
    after.skip(before.len() as int)
}

/// A bus together with the record of the transactions made on it, oldest
/// first. The bus is reached through `write` and `write_read` only, and
/// each of them adds to the record exactly the transaction it made.
pub struct Recorded<B: I2cBus> {
    bus: B,
    log: Ghost<Seq<Transaction<B::Error>>>,
}

impl<B: I2cBus> Recorded<B> {
    /// The transactions made so far, oldest first.
    pub closed spec fn log(&self) -> Seq<Transaction<B::Error>> {
        self.log@
    }

    /// Takes a bus, on which nothing has been recorded yet.
    pub fn new(bus: B) -> (recorded: Self)
        ensures
            recorded.log() == Seq::<Transaction<B::Error>>::empty(),
    {
        Recorded { bus, log: Ghost(Seq::empty()) }
    }

    /// Makes one `write` and records it with its outcome.
    pub fn write(&mut self, address: u8, bytes: &[u8]) -> (outcome: Result<(), B::Error>)
        ensures
            final(self).log() == old(self).log().push(
                Transaction::Write { address, sent: bytes@, outcome },
            ),
    {
        let outcome = self.bus.write(address, bytes);
        proof {
            self.log@ = self.log@.push(Transaction::Write { address, sent: bytes@, outcome });
        }
        outcome
    }

    /// Makes one `write_read` and records it with its reply: the new
    /// content of the buffer, or the error.
    pub fn write_read<const N: usize>(
        &mut self,
        address: u8,
        bytes: &[u8],
        buffer: &mut [u8; N],
    ) -> (outcome: Result<(), B::Error>)
        ensures
            final(self).log() == old(self).log().push(
                Transaction::WriteRead {
                    address,
                    sent: bytes@,
                    count: N as nat,
                    reply: reply_of(outcome, final(buffer)@),
                },
            ),
    {
        let outcome = self.bus.write_read(address, bytes, buffer);
        proof {
            self.log@ = self.log@.push(
                Transaction::WriteRead {
                    address,
                    sent: bytes@,
                    count: N as nat,
                    reply: reply_of(outcome, buffer@),
                },
            );
        }
        outcome
    }
}

} // verus!
