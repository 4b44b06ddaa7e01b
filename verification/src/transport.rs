//! The bus transport collaborator: the read/write-byte primitives the driver
//! depends on but does not implement.

use vstd::prelude::*;

verus! {

/// Error surfaced when a bus transaction fails.
#[derive(Clone, Copy, Debug, PartialEq, Eq, Structural)]
pub struct BusError;

/// A register-bus transport.
///
/// The abstract state of a transport is two logs: [`Transport::writes`], the
/// register writes that have completed on the wire, each a
/// `(command byte, value)` pair; and [`Transport::reads`], the command bytes
/// of the register reads that have been issued. The driver's contracts are
/// stated over these logs; what a read *returns* is left to the device and is
/// promised nothing here.
///
/// An implementation outside the verified library (a real bus) is believed to
/// meet these contracts; [`crate::mock::MockBus`] meets them provably.
pub trait Transport: Sized {
    /// The register writes completed so far, oldest first.
    ///
    /// The default stands for transports the verifier never sees; a verified
    /// implementation overrides it with its real write log.
    open spec fn writes(&self) -> Seq<(u8, u8)> {
        Seq::empty()
    }

    /// The command bytes of the register reads issued so far, oldest first.
    ///
    /// The default stands for transports the verifier never sees; a verified
    /// implementation overrides it with its real read log.
    open spec fn reads(&self) -> Seq<u8> {
        Seq::empty()
    }

    /// Writes one byte to the register addressed by `command`.
    ///
    /// On success exactly that write completed; on failure no write
    /// completed. A write issues no read.
    fn write_byte_register(&mut self, command: u8, value: u8) -> (r: Result<(), BusError>)
        ensures
            r is Ok ==> final(self).writes() == old(self).writes().push((command, value)),
            r is Err ==> final(self).writes() == old(self).writes(),
            final(self).reads() == old(self).reads(),
    ;

    /// Reads one byte from the register addressed by `command`.
    ///
    /// Exactly that read is issued, whatever its outcome; the value is the
    /// device's to choose. A read completes no write.
    fn read_byte_register(&mut self, command: u8) -> (r: Result<u8, BusError>)
        ensures
            final(self).writes() == old(self).writes(),
            final(self).reads() == old(self).reads().push(command),
    ;

    /// Reads a 2-byte block starting at the register addressed by `command`,
    /// returned as `(low byte, high byte)`.
    ///
    /// Exactly that block read is issued, whatever its outcome; the values
    /// are the device's to choose. A read completes no write.
    fn read_block_two(&mut self, command: u8) -> (r: Result<(u8, u8), BusError>)
        ensures
            final(self).writes() == old(self).writes(),
            final(self).reads() == old(self).reads().push(command),
    ;
}

} // verus!
