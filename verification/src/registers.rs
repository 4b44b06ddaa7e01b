//! The device's fixed register map, the command framing that every bus
//! transaction uses, and the bit patterns written to the enable register.

use vstd::prelude::*;

verus! {

/// Fixed bus address of the sensor.
pub const DEVICE_ADDRESS: u16 = 0x29;

/// Framing bit OR'd into every register offset before transmission.
pub const COMMAND_BIT: u8 = 0xA0;

/// Identity register; reads back the device signature.
pub const REGISTER_DEVICE_ID: u8 = 0x12;

/// Signature byte the identity register reports.
pub const DEVICE_ID: u8 = 0x50;

/// Power / ADC / interrupt enable bitmask register.
pub const REGISTER_ENABLE: u8 = 0x00;

/// Integration-time + gain bitmask register.
pub const REGISTER_CONTROL: u8 = 0x01;

/// Low byte of the 2-byte little-endian visible+infrared count.
pub const REGISTER_CHAN0_LOW: u8 = 0x14;

/// Low byte of the 2-byte little-endian infrared-only count.
pub const REGISTER_CHAN1_LOW: u8 = 0x16;

/// Power-off value for the enable register.
pub const POWER_OFF: u8 = 0x00;

/// Power-on flag of the enable register.
pub const POWER_ON: u8 = 0x01;

/// ADC/analog-enable flag.
pub const ENABLE_AEN: u8 = 0x02;

/// ADC-interrupt-enable flag.
pub const ENABLE_AIEN: u8 = 0x10;

/// No-persist-interrupt-enable flag.
pub const ENABLE_NPIEN: u8 = 0x80;

/// Everything `enable` writes: power-on with all three auxiliary flags.
pub const ENABLE_ALL: u8 = 0x93;

/// The command byte that addresses `register` on the wire.
pub open spec fn spec_command(register: u8) -> u8 {
    COMMAND_BIT | register
}

/// Frames a register offset for transmission.
pub fn command(register: u8) -> (r: u8)
    ensures
        r == spec_command(register),
{
    COMMAND_BIT | register
}

/// The enable value is exactly power-on together with the ADC, ADC-interrupt
/// and no-persist-interrupt flags.
pub proof fn lemma_enable_all_flags()
    ensures
        ENABLE_ALL == (POWER_ON | ENABLE_AEN | ENABLE_AIEN | ENABLE_NPIEN),
{
    assert(0x93u8 == (0x01u8 | 0x02u8 | 0x10u8 | 0x80u8)) by (bit_vector);
}

} // verus!
