//! One part of a combined transaction: a read into a buffer or a write from
//! one, addressed to a slave, with its quirk flags.

use vstd::prelude::*;

use crate::flags::{ReadFlags, WriteFlags};

verus! {

/// The largest byte length one message may carry: its descriptor holds the
/// length in a 16-bit count field.
pub const MAX_MESSAGE_LEN: usize = 0xFFFF;

/// Part of a combined transaction.
pub enum Message {
    /// A read command.
    Read {
        /// The slave address of the device to read from.
        address: u16,
        /// The buffer to read into; after a transfer it is truncated to the
        /// length the hardware reports.
        data: Vec<u8>,
        /// Quirk flags for this read.
        flags: ReadFlags,
    },
    /// A write command.
    Write {
        /// The slave address of the device to write to.
        address: u16,
        /// The data to write.
        data: Vec<u8>,
        /// Quirk flags for this write.
        flags: WriteFlags,
    },
}

impl Message {
    /// Byte length of the message data buffer.
    pub open spec fn spec_len(&self) -> nat {
        match self {
            Message::Read { data, .. } => data@.len(),
            Message::Write { data, .. } => data@.len(),
        }
    }

    /// Address of the message's slave.
    pub open spec fn spec_address(&self) -> u16 {
        match self {
            Message::Read { address, .. } => *address,
            Message::Write { address, .. } => *address,
        }
    }

    /// Whether the message is a read.
    pub open spec fn is_read(&self) -> bool {
        self matches Message::Read { .. }
    }

    /// The bytes of the message data buffer.
    pub open spec fn spec_data(&self) -> Seq<u8> {
        match self {
            Message::Read { data, .. } => data@,
            Message::Write { data, .. } => data@,
        }
    }

    /// A message is well formed when its buffer length fits the descriptor's
    /// 16-bit count field.
    pub open spec fn wf(&self) -> bool {
        self.spec_len() <= MAX_MESSAGE_LEN as nat
    }

    /// Byte length of the message data buffer.
    pub fn len(&self) -> (n: usize)
        ensures
            n == self.spec_len(),
    {
        match self {
            Message::Read { data, .. } => data.len(),
            Message::Write { data, .. } => data.len(),
        }
    }

    /// Address of the message's slave.
    pub fn address(&self) -> (a: u16)
        ensures
            a == self.spec_address(),
    {
        match self {
            Message::Read { address, .. } => *address,
            Message::Write { address, .. } => *address,
        }
    }
}

} // verus!
