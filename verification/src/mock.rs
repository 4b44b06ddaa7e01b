//! A transport test double: a register file fed by the write log, with a
//! switch that makes every transaction fail.
//!
//! Reads return the last value written to the addressed register (zero if
//! none was), so a configure-then-read round trip can be exercised without a
//! device on the bus.

use vstd::prelude::*;

use crate::config::Gain;
use crate::config::IntegrationTime;
use crate::config::spec_control_byte;
use crate::registers::REGISTER_CONTROL;
use crate::registers::spec_command;
use crate::transport::BusError;
use crate::transport::Transport;

verus! {

/// The value a register-file transport holds for `command` after the writes
/// in `log`: the value of the last write addressed to `command`, zero if
/// there was none.
pub open spec fn reg_value(log: Seq<(u8, u8)>, command: u8) -> u8
    decreases log.len(),
{
    if log.len() == 0 {
        0
    } else if log.last().0 == command {
        log.last().1
    } else {
        reg_value(log.drop_last(), command)
    }
}

/// An in-memory transport that records every write and serves reads from the
/// recorded register file.
pub struct MockBus {
    log: Vec<(u8, u8)>,
    read_log: Ghost<Seq<u8>>,
    fail: bool,
    fail_writes: bool,
}

impl MockBus {
    /// A fresh bus: nothing written, nothing read, transactions succeed.
    pub fn new() -> (r: MockBus)
        ensures
            r.writes().len() == 0,
            r.reads().len() == 0,
            !r.failing(),
            !r.failing_writes(),
    {
        MockBus {
            log: Vec::new(),
            read_log: Ghost(Seq::empty()),
            fail: false,
            fail_writes: false,
        }
    }

    /// Whether every transaction currently fails.
    pub closed spec fn failing(&self) -> bool {
        self.fail
    }

    /// Whether every write transaction currently fails.
    pub closed spec fn failing_writes(&self) -> bool {
        self.fail_writes
    }

    /// Makes every following transaction fail (or succeed again).
    pub fn set_fail(&mut self, fail: bool)
        ensures
            final(self).writes() == old(self).writes(),
            final(self).reads() == old(self).reads(),
            final(self).failing() == fail,
            final(self).failing_writes() == old(self).failing_writes(),
    {
        self.fail = fail;
    }

    /// Makes every following write fail (or succeed again); reads are
    /// untouched.
    pub fn set_fail_writes(&mut self, fail: bool)
        ensures
            final(self).writes() == old(self).writes(),
            final(self).reads() == old(self).reads(),
            final(self).failing() == old(self).failing(),
            final(self).failing_writes() == fail,
    {
        self.fail_writes = fail;
    }

    /// The current value of the register addressed by `command`.
    pub fn register(&self, command: u8) -> (r: u8)
        ensures
            r == reg_value(self.writes(), command),
    {
        let mut i: usize = self.log.len();
        proof {
            assert(self.log@.take(i as int) =~= self.log@);
        }
        while i > 0
            invariant
                i <= self.log.len(),
                reg_value(self.log@, command) == reg_value(self.log@.take(i as int), command),
            decreases i,
        {
            i = i - 1;
            let entry = self.log[i];
            proof {
                assert(self.log@.take(i + 1).last() == self.log@[i as int]);
                assert(self.log@.take(i + 1).drop_last() =~= self.log@.take(i as int));
            }
            if entry.0 == command {
                return entry.1;
            }
        }
        proof {
            assert(self.log@.take(0).len() == 0);
        }
        0
    }

    /// The write log, oldest first.
    pub fn written(&self) -> (r: &Vec<(u8, u8)>)
        ensures
            r@ == self.writes(),
    {
        &self.log
    }
}

/// The command byte a 2-byte block read starting at `command` reaches with
/// its second byte.
pub open spec fn block_high_command(command: u8) -> u8 {
    if command == 0xFF {
        0x00
    } else {
        (command + 1) as u8
    }
}

impl Transport for MockBus {
    closed spec fn writes(&self) -> Seq<(u8, u8)> {
        self.log@
    }

    closed spec fn reads(&self) -> Seq<u8> {
        self.read_log@
    }

    fn write_byte_register(&mut self, command: u8, value: u8) -> (r: Result<(), BusError>)
        ensures
            !old(self).failing() && !old(self).failing_writes() ==> r is Ok,
            final(self).failing() == old(self).failing(),
            final(self).failing_writes() == old(self).failing_writes(),
    {
        if self.fail || self.fail_writes {
            Err(BusError)
        } else {
            self.log.push((command, value));
            Ok(())
        }
    }

    fn read_byte_register(&mut self, command: u8) -> (r: Result<u8, BusError>)
        ensures
            !old(self).failing() ==> r == Ok::<u8, BusError>(
                reg_value(old(self).writes(), command),
            ),
            final(self).failing() == old(self).failing(),
            final(self).failing_writes() == old(self).failing_writes(),
    {
        self.read_log = Ghost(self.read_log@.push(command));
        if self.fail {
            Err(BusError)
        } else {
            Ok(self.register(command))
        }
    }

    fn read_block_two(&mut self, command: u8) -> (r: Result<(u8, u8), BusError>)
        ensures
            !old(self).failing() ==> r == Ok::<(u8, u8), BusError>(
                (
                    reg_value(old(self).writes(), command),
                    reg_value(old(self).writes(), block_high_command(command)),
                ),
            ),
            final(self).failing() == old(self).failing(),
            final(self).failing_writes() == old(self).failing_writes(),
    {
        self.read_log = Ghost(self.read_log@.push(command));
        if self.fail {
            return Err(BusError);
        }
        let low = self.register(command);
        let high_command: u8 = if command == 0xFF {
            0x00
        } else {
            command + 1
        };
        let high = self.register(high_command);
        Ok((low, high))
    }
}

/// Reading the control register of a register-file transport right after a
/// completed configure write returns exactly the combined code
/// `integration | gain`, whatever was written before.
pub proof fn lemma_configure_then_read(log: Seq<(u8, u8)>, integration: IntegrationTime, gain: Gain)
    ensures
        reg_value(
            log.push((spec_command(REGISTER_CONTROL), spec_control_byte(integration, gain))),
            spec_command(REGISTER_CONTROL),
        ) == spec_control_byte(integration, gain),
{
    let pushed = log.push((spec_command(REGISTER_CONTROL), spec_control_byte(integration, gain)));
    assert(pushed.last() == (spec_command(REGISTER_CONTROL), spec_control_byte(integration, gain)));
}

} // verus!
