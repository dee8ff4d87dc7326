//! The channel's capability bitset: the protocol features the hardware and
//! driver below the channel report as supported, and the quirk flags a caller
//! may safely use given those features.

use vstd::prelude::*;

use crate::flags::{
    M_IGNORE_NAK, M_NOSTART, M_NO_RD_ACK, M_REV_DIR_ADDR, M_STOP, M_TEN, ReadFlags, WriteFlags,
};

verus! {

/// Capability bit: raw multi-message transfers are supported.
pub const FUNC_I2C: u32 = 0x00000001;
/// Capability bit: native 10-bit addressing is supported.
pub const FUNC_TENBIT_ADDR: u32 = 0x00000002;
/// Capability bit: protocol mangling (NACK suppression, direction-bit
/// reversal, forced STOP) is supported.
pub const FUNC_PROTOCOL_MANGLING: u32 = 0x00000004;
/// Capability bit: packet error checking is supported.
pub const FUNC_SMBUS_PEC: u32 = 0x00000008;
/// Capability bit: suppressing the START condition is supported.
pub const FUNC_NO_START: u32 = 0x00000010;
/// Capability bit: the native block-read primitive is supported.
pub const FUNC_SMBUS_READ_I2C_BLOCK: u32 = 0x04000000;
/// Capability bit: the native block-write primitive is supported.
pub const FUNC_SMBUS_WRITE_I2C_BLOCK: u32 = 0x08000000;

/// The feature bitset one capability query against the channel reports.
#[derive(Clone, Copy, PartialEq, Eq, Structural, Debug)]
pub struct CapabilitySet {
    /// The raw feature bits.
    pub bits: u32,
}

impl CapabilitySet {
    /// Whether every feature bit of `mask` is reported as supported.
    pub open spec fn spec_contains(self, mask: u32) -> bool {
        self.bits & mask == mask
    }

    /// A capability set from the raw feature bits of one query.
    pub fn from_bits(bits: u32) -> (r: Self)
        ensures
            r.bits == bits,
    {
        CapabilitySet { bits }
    }

    /// The raw feature bits.
    pub fn bits(&self) -> (r: u32)
        ensures
            r == self.bits,
    {
        self.bits
    }

    /// Whether every feature bit of `mask` is reported as supported.
    pub fn contains(&self, mask: u32) -> (r: bool)
        ensures
            r == self.spec_contains(mask),
    {
        self.bits & mask == mask
    }

    /// The read-side flags a caller may safely pass to a batch transfer,
    /// given these capabilities.
    pub open spec fn spec_supported_read_flags(self) -> u16 {
        (if self.spec_contains(FUNC_PROTOCOL_MANGLING) {
            M_NO_RD_ACK | M_REV_DIR_ADDR | M_STOP
        } else {
            0
        }) | (if self.spec_contains(FUNC_NO_START) { M_NOSTART } else { 0 }) | (
        if self.spec_contains(FUNC_TENBIT_ADDR) {
            M_TEN
        } else {
            0
        })
    }

    /// The write-side flags a caller may safely pass to a batch transfer,
    /// given these capabilities.
    pub open spec fn spec_supported_write_flags(self) -> u16 {
        (if self.spec_contains(FUNC_PROTOCOL_MANGLING) {
            M_IGNORE_NAK | M_REV_DIR_ADDR | M_STOP
        } else {
            0
        }) | (if self.spec_contains(FUNC_NO_START) { M_NOSTART } else { 0 }) | (
        if self.spec_contains(FUNC_TENBIT_ADDR) {
            M_TEN
        } else {
            0
        })
    }

    /// The quirk flags a caller may safely pass to a batch transfer: NACK
    /// handling, direction-bit reversal and forced STOP when protocol
    /// mangling is supported; no-START when START suppression is supported;
    /// the 10-bit address flag when 10-bit addressing is supported. This is
    /// advisory: nothing stops a caller from passing other flags, which the
    /// hardware ignores or rejects.
    pub fn supported_transfer_flags(&self) -> (r: (ReadFlags, WriteFlags))
        ensures
            r.0.bits == self.spec_supported_read_flags(),
            r.1.bits == self.spec_supported_write_flags(),
    {
        let mangling = self.contains(FUNC_PROTOCOL_MANGLING);
        let nostart = self.contains(FUNC_NO_START);
        let tenbit = self.contains(FUNC_TENBIT_ADDR);
        let read: u16 = (if mangling {
            M_NO_RD_ACK | M_REV_DIR_ADDR | M_STOP
        } else {
            0
        }) | (if nostart {
            M_NOSTART
        } else {
            0
        }) | (if tenbit {
            M_TEN
        } else {
            0
        });
        let write: u16 = (if mangling {
            M_IGNORE_NAK | M_REV_DIR_ADDR | M_STOP
        } else {
            0
        }) | (if nostart {
            M_NOSTART
        } else {
            0
        }) | (if tenbit {
            M_TEN
        } else {
            0
        });
        (ReadFlags { bits: read }, WriteFlags { bits: write })
    }
}

} // verus!
