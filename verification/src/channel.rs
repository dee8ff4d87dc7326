//! The channel to one bus device: its recorded slave address and addressing
//! mode, its lazily cached capability bitset, and the capability-aware
//! decision between a native block transfer and an emulated one synthesized
//! as a batch for the transfer engine.
//!
//! The device handle itself, and every blocking call against it, live
//! outside this library. A caller keeps one `I2c` beside its handle, records
//! on it what the probe and address ioctls returned, and asks it how to
//! carry out each block operation.

use vstd::prelude::*;

use crate::capability::{
    CapabilitySet, FUNC_I2C, FUNC_NO_START, FUNC_SMBUS_READ_I2C_BLOCK, FUNC_SMBUS_WRITE_I2C_BLOCK,
    FUNC_TENBIT_ADDR,
};
use crate::flags::{M_NOSTART, M_TEN, ReadFlags, WriteFlags};
use crate::message::Message;

verus! {

/// The largest byte count the basic block primitives carry.
pub const SMBUS_BLOCK_MAX: usize = 32;

/// The state of one open channel: which slave it last addressed, in which
/// addressing mode, and the capability bitset of its first successful probe.
#[derive(Clone, Copy, Debug)]
pub struct I2c {
    /// The slave address recorded by the last successful address-set call.
    pub address: Option<u16>,
    /// Whether that address was set in 10-bit mode.
    pub address_10bit: bool,
    /// The capability bitset, once a probe has succeeded. Populated at most
    /// once for the channel's lifetime.
    pub functionality: Option<CapabilitySet>,
}

/// How a block read is carried out.
pub enum BlockReadPlan {
    /// Issue the basic block-read primitive over the first `len` bytes of
    /// the buffer, which rides along unchanged.
    Direct {
        /// The caller's buffer.
        value: Vec<u8>,
        /// How many of its bytes the primitive may fill.
        len: usize,
    },
    /// Run this two-message batch — the command byte written, then the
    /// buffer read — through the transfer engine as one transaction; the
    /// operation's result is the read message's post-transfer length.
    Emulated {
        /// The synthesized batch.
        messages: Vec<Message>,
    },
}

/// How a block write is carried out.
pub enum BlockWritePlan {
    /// Issue the basic block-write primitive with the buffer as it stands.
    Direct {
        /// The caller's buffer.
        value: Vec<u8>,
    },
    /// Run this batch through the transfer engine as one transaction: two
    /// write messages, the second with START suppressed, where the hardware
    /// supports that; else one write message carrying the command byte
    /// concatenated with the buffer.
    Batch {
        /// The synthesized batch.
        messages: Vec<Message>,
    },
}

/// The channel state with a freshly recorded capability bitset.
pub open spec fn spec_record_functionality(ch: I2c, caps: CapabilitySet) -> I2c {
    I2c { functionality: Some(caps), ..ch }
}

impl I2c {
    /// Whether a capability query must probe the hardware: only while no
    /// probe has succeeded yet.
    pub open spec fn needs_probe(self) -> bool {
        self.functionality is None
    }

    /// The native flag word of the quirk flags every synthesized message
    /// carries: the 10-bit address flag in 10-bit mode, nothing otherwise.
    pub open spec fn spec_emulation_flags(self) -> u16 {
        if self.address_10bit {
            M_TEN
        } else {
            0
        }
    }

    /// A block read of `value_len` bytes is emulated as a raw batch exactly
    /// when the capabilities are known, the native block-read path is ruled
    /// out — unsupported, or the request exceeds its maximum — and the raw
    /// path is open: multi-message transfers supported and a slave address
    /// known.
    pub open spec fn spec_emulates_block_read(self, value_len: nat) -> bool {
        &&& self.functionality matches Some(f)
        &&& !f.spec_contains(FUNC_SMBUS_READ_I2C_BLOCK) || value_len > SMBUS_BLOCK_MAX as nat
        &&& f.spec_contains(FUNC_I2C)
        &&& self.address is Some
    }

    /// A block write is emulated under the same conditions, against the
    /// native block-write capability.
    pub open spec fn spec_emulates_block_write(self, value_len: nat) -> bool {
        &&& self.functionality matches Some(f)
        &&& !f.spec_contains(FUNC_SMBUS_WRITE_I2C_BLOCK) || value_len > SMBUS_BLOCK_MAX as nat
        &&& f.spec_contains(FUNC_I2C)
        &&& self.address is Some
    }

    /// A fresh channel: no slave address recorded, 7-bit mode, capabilities
    /// not yet probed.
    pub fn new() -> (r: Self)
        ensures
            r.address is None,
            !r.address_10bit,
            r.needs_probe(),
    {
        I2c { address: None, address_10bit: false, functionality: None }
    }

    /// The cached capability bitset, or `None` while a query still needs to
    /// probe the hardware.
    pub fn cached_functionality(&self) -> (r: Option<CapabilitySet>)
        ensures
            r == self.functionality,
    {
        self.functionality
    }

    /// Record the bitset of the channel's first successful capability probe.
    /// The cache is populated at most once: a failed probe records nothing,
    /// and the next query retries.
    pub fn record_functionality(&mut self, caps: CapabilitySet)
        requires
            old(self).needs_probe(),
        ensures
            *final(self) == spec_record_functionality(*old(self), caps),
    {
        self.functionality = Some(caps);
    }

    /// Record the slave address of a successful address-set call, and the
    /// addressing mode it used.
    pub fn record_slave_address(&mut self, address: u16, tenbit: bool)
        ensures
            final(self).address == Some(address),
            final(self).address_10bit == tenbit,
            final(self).functionality == old(self).functionality,
    {
        self.address = Some(address);
        self.address_10bit = tenbit;
    }

    /// Decide how to read a block from the register `command` into `value`:
    /// natively when the hardware offers that and the buffer fits, as an
    /// emulated two-message batch when it does not and the raw path is open,
    /// and by the basic primitive, clamped to its maximum, as the last
    /// resort.
    pub fn plan_block_read(&self, command: u8, value: Vec<u8>) -> (r: BlockReadPlan)
        ensures
            (r is Emulated) == self.spec_emulates_block_read(value@.len()),
            r matches BlockReadPlan::Emulated { messages } ==> {
                &&& messages@.len() == 2
                &&& messages@[0] matches Message::Write { address, data, flags }
                    && Some(address) == self.address
                    && data@ == seq![command]
                    && flags.bits == self.spec_emulation_flags()
                &&& messages@[1] matches Message::Read { address, data, flags }
                    && Some(address) == self.address
                    && data@ == value@
                    && flags.bits == self.spec_emulation_flags()
            },
            r matches BlockReadPlan::Direct { value: v, len } ==> v@ == value@ && len == (
            if value@.len() < SMBUS_BLOCK_MAX as nat {
                value@.len()
            } else {
                SMBUS_BLOCK_MAX as nat
            }),
    {
        let mut emulate = false;
        if let Some(func) = self.cached_functionality() {
            if !func.contains(FUNC_SMBUS_READ_I2C_BLOCK) || value.len() > SMBUS_BLOCK_MAX {
                if func.contains(FUNC_I2C) && self.address.is_some() {
                    emulate = true;
                }
            }
        }
        if emulate {
            let address = self.address.unwrap();
            let wflags = WriteFlags { bits: if self.address_10bit { M_TEN } else { 0 } };
            let rflags = ReadFlags { bits: if self.address_10bit { M_TEN } else { 0 } };
            let mut command_data: Vec<u8> = Vec::new();
            command_data.push(command);
            proof {
                assert(command_data@ =~= seq![command]);
            }
            let mut messages: Vec<Message> = Vec::new();
            messages.push(Message::Write { address, data: command_data, flags: wflags });
            messages.push(Message::Read { address, data: value, flags: rflags });
            BlockReadPlan::Emulated { messages }
        } else {
            let len = if value.len() < SMBUS_BLOCK_MAX {
                value.len()
            } else {
                SMBUS_BLOCK_MAX
            };
            BlockReadPlan::Direct { value, len }
        }
    }

    /// Decide how to write `value` to the register `command`: natively when
    /// the hardware offers that and the buffer fits; as a two-message batch
    /// — the command byte, then the data with START suppressed — when the
    /// hardware can suppress START; as a single message carrying the command
    /// byte concatenated with the data when it cannot; and by the basic
    /// primitive, unclamped, as the last resort.
    pub fn plan_block_write(&self, command: u8, value: Vec<u8>) -> (r: BlockWritePlan)
        ensures
            (r is Batch) == self.spec_emulates_block_write(value@.len()),
            r matches BlockWritePlan::Batch { messages } ==> self.functionality matches Some(f)
                ==> (if f.spec_contains(FUNC_NO_START) {
                &&& messages@.len() == 2
                &&& messages@[0] matches Message::Write { address, data, flags }
                    && Some(address) == self.address
                    && data@ == seq![command]
                    && flags.bits == self.spec_emulation_flags()
                &&& messages@[1] matches Message::Write { address, data, flags }
                    && Some(address) == self.address
                    && data@ == value@
                    && flags.bits == self.spec_emulation_flags() | M_NOSTART
            } else {
                &&& messages@.len() == 1
                &&& messages@[0] matches Message::Write { address, data, flags }
                    && Some(address) == self.address
                    && data@ == seq![command] + value@
                    && flags.bits == self.spec_emulation_flags()
            }),
            r matches BlockWritePlan::Direct { value: v } ==> v@ == value@,
    {
        let mut emulate = false;
        if let Some(func) = self.cached_functionality() {
            if !func.contains(FUNC_SMBUS_WRITE_I2C_BLOCK) || value.len() > SMBUS_BLOCK_MAX {
                if func.contains(FUNC_I2C) && self.address.is_some() {
                    emulate = true;
                }
            }
        }
        if !emulate {
            return BlockWritePlan::Direct { value };
        }
        let address = self.address.unwrap();
        let flags = WriteFlags { bits: if self.address_10bit { M_TEN } else { 0 } };
        let func = self.cached_functionality().unwrap();
        let mut messages: Vec<Message> = Vec::new();
        if func.contains(FUNC_NO_START) {
            let mut command_data: Vec<u8> = Vec::new();
            command_data.push(command);
            proof {
                assert(command_data@ =~= seq![command]);
            }
            messages.push(Message::Write { address, data: command_data, flags });
            messages.push(
                Message::Write { address, data: value, flags: flags.union(WriteFlags::no_start()) },
            );
        } else {
            let mut joined: Vec<u8> = Vec::new();
            joined.push(command);
            let mut i: usize = 0;
            while i < value.len()
                invariant
                    i <= value@.len(),
                    joined@ == seq![command] + value@.take(i as int),
                decreases value@.len() - i,
            {
                joined.push(value[i]);
                proof {
                    assert(joined@ =~= seq![command] + value@.take(i as int + 1));
                }
                i = i + 1;
            }
            proof {
                assert(joined@ =~= seq![command] + value@);
            }
            messages.push(Message::Write { address, data: joined, flags });
        }
        BlockWritePlan::Batch { messages }
    }
}

/// Whether the address-set sequence must configure the 10-bit addressing
/// mode before setting the slave address: only when the capabilities are
/// known, and then when the hardware reports native 10-bit support or the
/// caller explicitly asked for 10-bit mode.
pub fn should_configure_10bit(caps: Option<CapabilitySet>, tenbit: bool) -> (r: bool)
    ensures
        r == (caps matches Some(f) && (f.spec_contains(FUNC_TENBIT_ADDR) || tenbit)),
{
    match caps {
        Some(f) => f.contains(FUNC_TENBIT_ADDR) || tenbit,
        None => false,
    }
}

/// The whole milliseconds of a timeout given as seconds and a sub-second
/// nanosecond remainder, as the timeout knob takes it. The remainder's
/// fraction of a millisecond is dropped.
pub fn timeout_millis(secs: u64, subsec_nanos: u32) -> (ms: u64)
    requires
        secs * 1000 + subsec_nanos as int / 1000000 <= u64::MAX,
    ensures
        ms == secs * 1000 + subsec_nanos / 1000000,
{
    secs * 1000 + (subsec_nanos / 1000000) as u64
}

/// A capability set is probed at most once per channel: a query probes only
/// while the cache is empty, and recording the first probe's result fills
/// it, so of two consecutive queries against the same channel only the
/// first can probe, and the second is served the recorded set unchanged.
pub proof fn lemma_capability_probed_once(ch: I2c, caps: CapabilitySet)
    requires
        ch.needs_probe(),
    ensures
        !spec_record_functionality(ch, caps).needs_probe(),
        spec_record_functionality(ch, caps).functionality == Some(caps),
        spec_record_functionality(ch, caps).address == ch.address,
        spec_record_functionality(ch, caps).address_10bit == ch.address_10bit,
{
}

} // verus!
