use vstd::prelude::*;

use crate::registers::Register;

verus! {

/// One bus transaction, as the driver's contracts model it: the opcode byte
/// that opened the transaction, and the data bytes that followed it.
pub enum Transaction {
    /// A write burst: the register's write opcode, then the bytes sent.
    Write { opcode: u8, data: Seq<u8> },
    /// A read burst: the register's read opcode, then the bytes received.
    Read { opcode: u8, data: Seq<u8> },
}

/// The model of a write burst of `data` to register `r`.
pub open spec fn wrote(r: Register, data: Seq<u8>) -> Transaction {
    Transaction::Write { opcode: r.write_spec(), data }
}

/// The model of a read burst from register `r` that returned `data`.
pub open spec fn read_back(r: Register, data: Seq<u8>) -> Transaction {
    Transaction::Read { opcode: r.read_spec(), data }
}

/// Failure of a single bus transaction. The driver maps it to its own error
/// kinds; no further detail is carried.
pub struct BusFault;

/// Failure of a digital pin access.
pub struct PinFault;

/// A byte transport that performs register transactions against the chip:
/// each call is one bus transaction, an opcode byte followed by the data
/// bytes, with the chip auto-incrementing the register address across a
/// multi-byte burst.
///
/// The trait carries a ghost log of the transactions performed, oldest
/// first, so that callers can state exactly which bytes a sequence of
/// driver operations put on the bus. An implementation decides for itself
/// when a transfer fails; the contracts only pin down that a successful
/// transfer appends exactly one transaction to the log and that a failed
/// one appends none.
pub trait ReadWrite: Sized {
    /// The ghost log: every transaction performed so far. An
    /// implementation that does not model its history may leave the
    /// default, an empty log, and promises nothing through it.
    open spec fn ops(&self) -> Seq<Transaction> {
        Seq::empty()
    }

    /// Send the register's write opcode and then `values`, as one bus
    /// transaction.
    fn write_many(&mut self, register: Register, values: &[u8]) -> (r: Result<(), BusFault>)
        ensures
            r is Ok ==> final(self).ops() == old(self).ops().push(wrote(register, values@)),
            r is Err ==> final(self).ops() == old(self).ops(),
    ;

    /// Send the register's read opcode and then receive `count` bytes, as
    /// one bus transaction.
    fn read_many(&mut self, register: Register, count: usize) -> (r: Result<Vec<u8>, BusFault>)
        ensures
            r matches Ok(data) ==> data@.len() == count && final(self).ops() == old(
                self,
            ).ops().push(read_back(register, data@)),
            r is Err ==> final(self).ops() == old(self).ops(),
    ;
}

/// The digital output that drives the chip's reset pin. The trait carries a
/// ghost log of the levels driven, so that the reset pulse can be stated;
/// nothing is promised about the electrical effect.
pub trait ResetLine: Sized {
    /// The ghost log: every level driven so far, `true` for high. An
    /// implementation that does not model its history may leave the
    /// default, an empty log, and promises nothing through it.
    open spec fn levels(&self) -> Seq<bool> {
        Seq::empty()
    }

    /// Drive the pin high.
    fn set_high(&mut self) -> (r: Result<(), PinFault>)
        ensures
            r is Ok ==> final(self).levels() == old(self).levels().push(true),
            r is Err ==> final(self).levels() == old(self).levels(),
    ;

    /// Drive the pin low.
    fn set_low(&mut self) -> (r: Result<(), PinFault>)
        ensures
            r is Ok ==> final(self).levels() == old(self).levels().push(false),
            r is Err ==> final(self).levels() == old(self).levels(),
    ;
}

/// One pause asked of the delay source.
#[derive(Clone, Copy, Debug, PartialEq, Eq, Structural)]
pub enum Pause {
    Micros(u32),
    Millis(u32),
}

/// A time source that the driver uses for settle times and for the interval
/// between readiness polls. The trait carries a ghost log of the pauses
/// performed; whether a pause blocks or suspends is the host's concern.
pub trait Delay: Sized {
    /// The ghost log: every pause performed so far. An implementation
    /// that does not model its history may leave the default, an empty
    /// log, and promises nothing through it.
    open spec fn pauses(&self) -> Seq<Pause> {
        Seq::empty()
    }

    /// Pause for `us` microseconds.
    fn delay_us(&mut self, us: u32)
        ensures
            final(self).pauses() == old(self).pauses().push(Pause::Micros(us)),
    ;

    /// Pause for `ms` milliseconds.
    fn delay_ms(&mut self, ms: u32)
        ensures
            final(self).pauses() == old(self).pauses().push(Pause::Millis(ms)),
    ;
}

/// The log only grows: `post` still carries every transaction of `pre`,
/// at the same position, and may have more after them.
pub open spec fn extends(pre: Seq<Transaction>, post: Seq<Transaction>) -> bool {
    post.len() >= pre.len() && forall|i: int| 0 <= i < pre.len() ==> post[i] == pre[i]
}

} // verus!
