//! The sensor driver: lifecycle, configuration, raw readings, illuminance.

use vstd::prelude::*;

use crate::config::Gain;
use crate::config::IntegrationTime;
use crate::config::spec_control_byte;
use crate::config::control_byte;
use crate::lux::Lux;
use crate::lux::ReadError;
use crate::lux::calculate_lux;
use crate::lux::combine_channel_bytes;
use crate::lux::lux_of;
use crate::registers::DEVICE_ID;
use crate::registers::ENABLE_ALL;
use crate::registers::POWER_OFF;
use crate::registers::REGISTER_CHAN0_LOW;
use crate::registers::REGISTER_CHAN1_LOW;
use crate::registers::REGISTER_CONTROL;
use crate::registers::REGISTER_DEVICE_ID;
use crate::registers::REGISTER_ENABLE;
use crate::registers::command;
use crate::registers::spec_command;
use crate::transport::BusError;
use crate::transport::Transport;

verus! {

/// Why construction failed.
#[derive(Clone, Copy, Debug, PartialEq, Eq, Structural)]
pub enum InitError {
    /// The identity read failed, or the device signature did not match.
    DeviceNotFound,
    /// The initial power-down write failed.
    Bus,
}

/// The abstract state of a driver: the cached configuration together with the
/// register traffic of its transport.
#[verifier::ext_equal]
pub ghost struct DriverState {
    /// Cached belief about the power/enable register; mirrors the last value
    /// written, not ground truth read back from the device.
    pub enabled: bool,
    /// The integration time last successfully written.
    pub integration: IntegrationTime,
    /// The gain last successfully written.
    pub gain: Gain,
    /// The register writes completed on the wire, oldest first.
    pub writes: Seq<(u8, u8)>,
    /// The command bytes of the register reads issued, oldest first.
    pub reads: Seq<u8>,
}

/// The write `enable` puts on the wire.
pub open spec fn enable_frame() -> (u8, u8) {
    (spec_command(REGISTER_ENABLE), ENABLE_ALL)
}

/// The write `disable` puts on the wire.
pub open spec fn disable_frame() -> (u8, u8) {
    (spec_command(REGISTER_ENABLE), POWER_OFF)
}

/// The write `set_timing_gain` puts on the wire.
pub open spec fn configure_frame(integration: IntegrationTime, gain: Gain) -> (u8, u8) {
    (spec_command(REGISTER_CONTROL), spec_control_byte(integration, gain))
}

/// The state after a successful `enable`.
pub open spec fn enable_step(s: DriverState) -> DriverState {
    DriverState { enabled: true, writes: s.writes.push(enable_frame()), ..s }
}

/// The state after a successful `disable`.
pub open spec fn disable_step(s: DriverState) -> DriverState {
    DriverState { enabled: false, writes: s.writes.push(disable_frame()), ..s }
}

/// The state after a successful `set_timing_gain`: both cached fields change
/// as a pair, the enabled flag does not.
pub open spec fn configure_step(s: DriverState, integration: IntegrationTime, gain: Gain) -> DriverState {
    DriverState {
        integration,
        gain,
        writes: s.writes.push(configure_frame(integration, gain)),
        ..s
    }
}

/// The command byte of the identity read `new` issues.
pub open spec fn identity_read_command() -> u8 {
    spec_command(REGISTER_DEVICE_ID)
}

/// The command byte of the channel-0 block read.
pub open spec fn chan0_read_command() -> u8 {
    spec_command(REGISTER_CHAN0_LOW)
}

/// The command byte of the channel-1 block read.
pub open spec fn chan1_read_command() -> u8 {
    spec_command(REGISTER_CHAN1_LOW)
}

/// The state after a raw-channel read: exactly the two channel block reads
/// issued, channel 0 then channel 1, nothing else touched.
pub open spec fn raw_read_step(s: DriverState) -> DriverState {
    DriverState { reads: s.reads.push(chan0_read_command()).push(chan1_read_command()), ..s }
}

/// The state `new` establishes over a transport whose write and read logs
/// were `writes` and `reads`: default configuration, one identity read
/// issued, powered down by one completed write.
pub open spec fn initial_state(writes: Seq<(u8, u8)>, reads: Seq<u8>) -> DriverState {
    DriverState {
        enabled: false,
        integration: IntegrationTime::IT100MS,
        gain: Gain::MEDIUM,
        writes: writes.push(disable_frame()),
        reads: reads.push(identity_read_command()),
    }
}

/// The cached configuration of a state: what the driver believes about the
/// device.
pub open spec fn cached(s: DriverState) -> (bool, IntegrationTime, Gain) {
    (s.enabled, s.integration, s.gain)
}

/// Driver for the light sensor, over an exclusively owned transport.
pub struct Tsl2591<B: Transport> {
    enabled: bool,
    integration: IntegrationTime,
    gain: Gain,
    bus: B,
}

impl<B: Transport> View for Tsl2591<B> {
    type V = DriverState;

    closed spec fn view(&self) -> DriverState {
        DriverState {
            enabled: self.enabled,
            integration: self.integration,
            gain: self.gain,
            writes: self.bus.writes(),
            reads: self.bus.reads(),
        }
    }
}

/// Decides the identity check: accepts exactly the device signature byte,
/// rejecting every other byte with `DeviceNotFound`.
pub fn check_identity(id: u8) -> (r: Result<(), InitError>)
    ensures
        r is Ok <==> id == DEVICE_ID,
        r matches Err(e) ==> e == InitError::DeviceNotFound,
{
    if id == DEVICE_ID {
        Ok(())
    } else {
        Err(InitError::DeviceNotFound)
    }
}

impl<B: Transport> Tsl2591<B> {
    /// Constructs a driver over `bus`: reads the identity register, holds the
    /// byte to [`check_identity`], takes the default configuration (100 ms
    /// integration, medium gain), and powers the device down as a safety
    /// default.
    ///
    /// Fails with `DeviceNotFound` when the identity read fails or
    /// `check_identity` rejects its byte, and with `Bus` when the power-down
    /// write fails.
    pub fn new(bus: B) -> (r: Result<Tsl2591<B>, InitError>)
        ensures
            r matches Ok(d) ==> d@ == initial_state(bus.writes(), bus.reads()),
    {
        let ghost entry_bus = bus;
        let mut bus = bus;
        let id = match bus.read_byte_register(command(REGISTER_DEVICE_ID)) {
            Ok(v) => v,
            Err(_) => {
                return Err(InitError::DeviceNotFound);
            },
        };
        match check_identity(id) {
            Ok(()) => (),
            Err(e) => {
                return Err(e);
            },
        }
        let mut driver = Tsl2591 {
            enabled: false,
            integration: IntegrationTime::IT100MS,
            gain: Gain::MEDIUM,
            bus,
        };
        match driver.disable() {
            Ok(()) => {
                proof {
                    assert(driver@ =~= initial_state(entry_bus.writes(), entry_bus.reads()));
                }
                Ok(driver)
            },
            Err(_) => Err(InitError::Bus),
        }
    }

    /// Powers the device on: writes power-on with the ADC, ADC-interrupt and
    /// no-persist-interrupt flags, then records the device as enabled. On
    /// failure nothing changes.
    pub fn enable(&mut self) -> (r: Result<(), BusError>)
        ensures
            r is Ok ==> final(self)@ == enable_step(old(self)@),
            r is Err ==> final(self)@ == old(self)@,
    {
        match self.bus.write_byte_register(command(REGISTER_ENABLE), ENABLE_ALL) {
            Ok(()) => {
                self.enabled = true;
                proof {
                    assert(self@ =~= enable_step(old(self)@));
                }
                Ok(())
            },
            Err(e) => {
                proof {
                    assert(self@ =~= old(self)@);
                }
                Err(e)
            },
        }
    }

    /// Powers the device off: writes the all-zero value, then records the
    /// device as disabled. On failure nothing changes.
    pub fn disable(&mut self) -> (r: Result<(), BusError>)
        ensures
            r is Ok ==> final(self)@ == disable_step(old(self)@),
            r is Err ==> final(self)@ == old(self)@,
    {
        match self.bus.write_byte_register(command(REGISTER_ENABLE), POWER_OFF) {
            Ok(()) => {
                self.enabled = false;
                proof {
                    assert(self@ =~= disable_step(old(self)@));
                }
                Ok(())
            },
            Err(e) => {
                proof {
                    assert(self@ =~= old(self)@);
                }
                Err(e)
            },
        }
    }

    /// Writes the combined integration-time and gain codes to the control
    /// register in one transaction, then updates both cached fields as a
    /// pair. On failure neither field changes. Does not touch the enabled
    /// state.
    pub fn set_timing_gain(&mut self, timing: IntegrationTime, gain: Gain) -> (r: Result<
        (),
        BusError,
    >)
        ensures
            r is Ok ==> final(self)@ == configure_step(old(self)@, timing, gain),
            r is Err ==> final(self)@ == old(self)@,
    {
        match self.bus.write_byte_register(command(REGISTER_CONTROL), control_byte(timing, gain)) {
            Ok(()) => {
                self.integration = timing;
                self.gain = gain;
                proof {
                    assert(self@ =~= configure_step(old(self)@, timing, gain));
                }
                Ok(())
            },
            Err(e) => {
                proof {
                    assert(self@ =~= old(self)@);
                }
                Err(e)
            },
        }
    }

    /// Reads the two raw channel counts (visible+infrared, infrared-only):
    /// exactly two 2-byte block reads, at the channel-0 then the channel-1
    /// low-byte register, each count reconstructed little-endian. Surfaces
    /// the counts verbatim, saturated or not, and changes nothing else: it
    /// is the caller's business to have enabled the device and waited out an
    /// integration period first.
    pub fn get_full_luminosity(&mut self) -> (r: Result<(u16, u16), BusError>)
        ensures
            r is Ok ==> final(self)@ == raw_read_step(old(self)@),
            r is Err ==> final(self)@ == raw_read_step(old(self)@) || final(self)@ == (
            DriverState { reads: old(self)@.reads.push(chan0_read_command()), ..old(self)@ }),
    {
        let (low0, high0) = match self.bus.read_block_two(command(REGISTER_CHAN0_LOW)) {
            Ok(p) => p,
            Err(e) => {
                proof {
                    assert(self@ =~= (DriverState {
                        reads: old(self)@.reads.push(chan0_read_command()),
                        ..old(self)@
                    }));
                }
                return Err(e);
            },
        };
        let (low1, high1) = match self.bus.read_block_two(command(REGISTER_CHAN1_LOW)) {
            Ok(p) => p,
            Err(e) => {
                proof {
                    assert(self@ =~= raw_read_step(old(self)@));
                }
                return Err(e);
            },
        };
        proof {
            assert(self@ =~= raw_read_step(old(self)@));
        }
        Ok((combine_channel_bytes(low0, high0), combine_channel_bytes(low1, high1)))
    }

    /// Reads the raw channels and computes the exact lux value under the
    /// current configuration. Fails with `Bus` when a read fails and with
    /// `Overflow` exactly when the channels that came back are unreadable (a
    /// channel saturated, or channel 0 zero). Changes nothing but the read
    /// log.
    pub fn read(&mut self) -> (r: Result<Lux, ReadError>)
        ensures
            final(self)@.enabled == old(self)@.enabled,
            final(self)@.integration == old(self)@.integration,
            final(self)@.gain == old(self)@.gain,
            final(self)@.writes == old(self)@.writes,
            r is Ok || r == Err::<Lux, ReadError>(ReadError::Overflow) ==> final(self)@
                == raw_read_step(old(self)@),
            r == Err::<Lux, ReadError>(ReadError::Bus) ==> final(self)@ == raw_read_step(
                old(self)@,
            ) || final(self)@ == (DriverState {
                reads: old(self)@.reads.push(chan0_read_command()),
                ..old(self)@
            }),
            r matches Ok(l) ==> l.wf() && (exists|ch0: u16, ch1: u16|
                #[trigger] lux_of(l, ch0, ch1, old(self)@.integration, old(self)@.gain)),
    {
        let (ch0, ch1) = match self.get_full_luminosity() {
            Ok(p) => p,
            Err(_) => {
                return Err(ReadError::Bus);
            },
        };
        let result = calculate_lux(self.integration, self.gain, ch0, ch1);
        proof {
            if result is Ok {
                assert(lux_of(result->Ok_0, ch0, ch1, old(self)@.integration, old(self)@.gain));
            }
        }
        result
    }

    /// The cached enabled flag.
    pub fn is_enabled(&self) -> (r: bool)
        ensures
            r == self@.enabled,
    {
        self.enabled
    }

    /// The cached integration time.
    pub fn integration(&self) -> (r: IntegrationTime)
        ensures
            r == self@.integration,
    {
        self.integration
    }

    /// The cached gain.
    pub fn gain(&self) -> (r: Gain)
        ensures
            r == self@.gain,
    {
        self.gain
    }

    /// A shared view of the transport, for callers that inspect it.
    pub fn bus(&self) -> (r: &B)
        ensures
            r.writes() == self@.writes,
    {
        &self.bus
    }

    /// Exclusive access to the transport, for callers that steer it (a test
    /// rig flipping its failure switch). The cached configuration stays as it
    /// is; the write log becomes whatever the caller leaves behind.
    pub fn bus_mut(&mut self) -> (r: &mut B)
        ensures
            (*r).writes() == old(self)@.writes,
            (*r).reads() == old(self)@.reads,
            final(self)@ == (DriverState {
                writes: final(r).writes(),
                reads: final(r).reads(),
                ..old(self)@
            }),
    {
        &mut self.bus
    }
}

/// Enabling is idempotent: a second successful `enable` leaves the cached
/// configuration exactly as the first did, and each puts the same single
/// write on the wire.
pub proof fn lemma_enable_idempotent(s: DriverState)
    ensures
        cached(enable_step(enable_step(s))) == cached(enable_step(s)),
        enable_step(s).writes == s.writes.push(enable_frame()),
        enable_step(enable_step(s)).writes == enable_step(s).writes.push(enable_frame()),
{
}

/// Disabling is idempotent: a second successful `disable` leaves the cached
/// configuration exactly as the first did, and each puts the same single
/// write on the wire.
pub proof fn lemma_disable_idempotent(s: DriverState)
    ensures
        cached(disable_step(disable_step(s))) == cached(disable_step(s)),
        disable_step(s).writes == s.writes.push(disable_frame()),
        disable_step(disable_step(s)).writes == disable_step(s).writes.push(disable_frame()),
{
}

} // verus!
