use vstd::prelude::*;

use crate::read_write::{
    read_back, wrote, BusFault, Delay, Pause, PinFault, ReadWrite, ResetLine, Transaction,
};
use crate::registers::Register;

verus! {

/// One recorded transaction of the scripted bus, in executable form so
/// that tests can compare a log against expectations.
#[derive(Debug, Clone, PartialEq, Eq)]
pub enum BusRecord {
    Write { opcode: u8, data: Vec<u8> },
    Read { opcode: u8, data: Vec<u8> },
}

impl View for BusRecord {
    type V = Transaction;

    open spec fn view(&self) -> Transaction {
        match self {
            BusRecord::Write { opcode, data } => Transaction::Write {
                opcode: *opcode,
                data: data@,
            },
            BusRecord::Read { opcode, data } => Transaction::Read { opcode: *opcode, data: data@ },
        }
    }
}

/// A scripted transport for tests. Write transactions succeed and are
/// recorded, unless `fail_writes` is set. Read transactions serve the
/// queued responses in order, and fail once the queue is empty or when
/// the next response does not have the requested length; only served
/// responses are recorded.
pub struct ScriptBus {
    /// The responses still to be served, next first.
    pub script: Vec<Vec<u8>>,
    /// Every transaction performed, oldest first.
    pub log: Vec<BusRecord>,
    /// Whether write transactions fail.
    pub fail_writes: bool,
}

impl ScriptBus {
    /// An empty bus: no queued responses, nothing recorded, writes
    /// succeed.
    pub fn new() -> (r: Self)
        ensures
            r.script@ == Seq::<Vec<u8>>::empty(),
            r.log@ == Seq::<BusRecord>::empty(),
            r.fail_writes == false,
            r.ops() == Seq::<Transaction>::empty(),
    {
        let r = ScriptBus { script: Vec::new(), log: Vec::new(), fail_writes: false };
        proof {
            assert(r.ops() =~= Seq::<Transaction>::empty());
        }
        r
    }

    /// Queue one read response.
    pub fn expect_read(&mut self, data: Vec<u8>)
        ensures
            final(self).script@ == old(self).script@.push(data),
            final(self).log == old(self).log,
            final(self).fail_writes == old(self).fail_writes,
    {
        self.script.push(data);
    }
}

impl ReadWrite for ScriptBus {
    open spec fn ops(&self) -> Seq<Transaction> {
        self.log@.map_values(|r: BusRecord| r@)
    }

    fn write_many(&mut self, register: Register, values: &[u8]) -> (r: Result<(), BusFault>) {
        if self.fail_writes {
            return Err(BusFault);
        }
        let data = vstd::slice::slice_to_vec(values);
        self.log.push(BusRecord::Write { opcode: register.write(), data });
        proof {
            assert(self.log@.map_values(|rec: BusRecord| rec@) =~= old(self).log@.map_values(
                |rec: BusRecord| rec@,
            ).push(wrote(register, values@)));
        }
        Ok(())
    }

    fn read_many(&mut self, register: Register, count: usize) -> (r: Result<Vec<u8>, BusFault>) {
        if self.script.len() == 0 {
            return Err(BusFault);
        }
        let data = self.script.remove(0);
        if data.len() != count {
            return Err(BusFault);
        }
        let served = vstd::slice::slice_to_vec(data.as_slice());
        self.log.push(BusRecord::Read { opcode: register.read(), data: served });
        proof {
            assert(self.log@.map_values(|rec: BusRecord| rec@) =~= old(self).log@.map_values(
                |rec: BusRecord| rec@,
            ).push(read_back(register, data@)));
        }
        Ok(data)
    }
}

/// A recording pin for tests: every level driven is logged; setting
/// `fail` makes every access fail instead.
pub struct MockPin {
    /// Every level driven, oldest first, `true` for high.
    pub log: Vec<bool>,
    /// Whether accesses fail.
    pub fail: bool,
}

impl MockPin {
    /// A pin with an empty log whose accesses succeed.
    pub fn new() -> (r: Self)
        ensures
            r.log@ == Seq::<bool>::empty(),
            r.fail == false,
    {
        MockPin { log: Vec::new(), fail: false }
    }
}

impl ResetLine for MockPin {
    open spec fn levels(&self) -> Seq<bool> {
        self.log@
    }

    fn set_high(&mut self) -> (r: Result<(), PinFault>) {
        if self.fail {
            return Err(PinFault);
        }
        self.log.push(true);
        Ok(())
    }

    fn set_low(&mut self) -> (r: Result<(), PinFault>) {
        if self.fail {
            return Err(PinFault);
        }
        self.log.push(false);
        Ok(())
    }
}

/// A recording delay source for tests: every pause asked for is logged,
/// none is actually performed.
pub struct MockDelay {
    /// Every pause asked for, oldest first.
    pub log: Vec<Pause>,
}

impl MockDelay {
    /// A delay source with an empty log.
    pub fn new() -> (r: Self)
        ensures
            r.log@ == Seq::<Pause>::empty(),
    {
        MockDelay { log: Vec::new() }
    }
}

impl Delay for MockDelay {
    open spec fn pauses(&self) -> Seq<Pause> {
        self.log@
    }

    fn delay_us(&mut self, us: u32) {
        self.log.push(Pause::Micros(us));
    }

    fn delay_ms(&mut self, ms: u32) {
        self.log.push(Pause::Millis(ms));
    }
}

} // verus!
