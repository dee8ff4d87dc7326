//! The batch transfer engine: encodes an ordered, capacity-bounded sequence
//! of messages into the fixed-layout transfer descriptors that one atomic
//! multi-message transaction carries, and reconciles the buffer length of
//! every read message with the length the hardware reports after the
//! transaction.
//!
//! The transaction itself is one blocking request against the device handle,
//! issued outside this library: a caller prepares the descriptors here, hands
//! them to the hardware in one call, and brings the reported lengths back to
//! be reconciled.

use vstd::prelude::*;

use crate::flags::{M_RD, spec_read_to_native, spec_write_to_native};
use crate::message::{MAX_MESSAGE_LEN, Message};

verus! {

/// The most messages one atomic transaction may carry.
pub const MAX_MESSAGES: usize = 42;

/// One transfer descriptor: the fixed-layout header under which the hardware
/// sees one message of a transaction. The message's buffer rides beside it.
#[derive(Clone, Copy, PartialEq, Eq, Structural, Debug)]
pub struct Descriptor {
    /// The slave address.
    pub addr: u16,
    /// The native flag word; reads carry the read bit.
    pub flags: u16,
    /// The byte length of the message buffer.
    pub len: u16,
}

/// The descriptor a message is encoded to: its address, its buffer length in
/// the 16-bit count field, and its flags translated to the native word, with
/// the read bit added for a read.
pub open spec fn spec_descriptor(m: Message) -> Descriptor {
    match m {
        Message::Read { address, data, flags } => Descriptor {
            addr: address,
            flags: spec_read_to_native(flags.bits) | M_RD,
            len: data@.len() as u16,
        },
        Message::Write { address, data, flags } => Descriptor {
            addr: address,
            flags: spec_write_to_native(flags.bits),
            len: data@.len() as u16,
        },
    }
}

/// Every message of the batch has a well-formed buffer length.
pub open spec fn all_wf(ms: Seq<Message>) -> bool {
    forall|i: int| 0 <= i < ms.len() ==> (#[trigger] ms[i]).wf()
}

/// Encode one message as its transfer descriptor.
pub fn encode_message(m: &Message) -> (d: Descriptor)
    requires
        m.wf(),
    ensures
        d == spec_descriptor(*m),
{
    match m {
        Message::Read { address, data, flags } => Descriptor {
            addr: *address,
            flags: flags.to_native() | M_RD,
            len: data.len() as u16,
        },
        Message::Write { address, data, flags } => Descriptor {
            addr: *address,
            flags: flags.to_native(),
            len: data.len() as u16,
        },
    }
}

/// Encode a batch of messages as the descriptor array of one atomic
/// transaction. Fails fast, before any descriptor reaches the hardware, when
/// the batch exceeds the transaction's fixed capacity or a message's buffer
/// exceeds the descriptor count field: both are caller errors, not transfer
/// errors.
pub fn transfer_prepare(messages: &Vec<Message>) -> (r: Option<Vec<Descriptor>>)
    ensures
        (r is Some) <==> (messages@.len() <= MAX_MESSAGES && all_wf(messages@)),
        r is Some ==> r.unwrap()@.len() == messages@.len(),
        r is Some ==> forall|i: int|
            0 <= i < messages@.len() ==> r.unwrap()@[i] == spec_descriptor(messages@[i]),
{
    if messages.len() > MAX_MESSAGES {
        return None;
    }
    let mut descs: Vec<Descriptor> = Vec::new();
    let mut i: usize = 0;
    while i < messages.len()
        invariant
            i <= messages@.len(),
            messages@.len() <= MAX_MESSAGES,
            descs@.len() == i,
            forall|j: int| 0 <= j < i ==> (#[trigger] messages@[j]).wf(),
            forall|j: int| 0 <= j < i ==> #[trigger] descs@[j] == spec_descriptor(messages@[j]),
        decreases messages@.len() - i,
    {
        let m = &messages[i];
        if m.len() > MAX_MESSAGE_LEN {
            return None;
        }
        descs.push(encode_message(m));
        i = i + 1;
    }
    Some(descs)
}

/// The buffer length a message is left with once the hardware has reported
/// `rep` bytes for it: a read keeps at most `rep` bytes, a write keeps its
/// buffer whole.
pub open spec fn spec_post_len(m: Message, rep: u16) -> nat {
    if m.is_read() {
        if (rep as nat) < m.spec_len() {
            rep as nat
        } else {
            m.spec_len()
        }
    } else {
        m.spec_len()
    }
}

/// How one message stands after reconciliation: a read keeps its address and
/// flags and its buffer is cut to the reported length; a write is untouched.
pub open spec fn message_reconciled(before: Message, rep: u16, after: Message) -> bool {
    match before {
        Message::Read { address, data, flags } => {
            &&& after matches Message::Read { address: a2, data: d2, flags: f2 }
                && a2 == address
                && f2 == flags
                && d2@ == data@.take(spec_post_len(before, rep) as int)
        },
        Message::Write { .. } => after == before,
    }
}

/// Reconcile a batch with the lengths the hardware reported after a
/// successful transaction: every read message's buffer is truncated to the
/// length reported for it, every write message is left unchanged.
pub fn transfer_complete(messages: &mut Vec<Message>, reported: &Vec<u16>)
    requires
        reported@.len() == old(messages)@.len(),
    ensures
        final(messages)@.len() == old(messages)@.len(),
        forall|i: int|
            0 <= i < old(messages)@.len() ==> message_reconciled(
                old(messages)@[i],
                reported@[i],
                #[trigger] final(messages)@[i],
            ),
        forall|i: int|
            0 <= i < old(messages)@.len() ==> (#[trigger] final(messages)@[i]).spec_len()
                == spec_post_len(old(messages)@[i], reported@[i]),
{
    let ghost orig = messages@;
    let n = messages.len();
    let mut out: Vec<Message> = Vec::new();
    let mut i: usize = 0;
    while i < n
        invariant
            n == orig.len(),
            reported@.len() == orig.len(),
            i <= n,
            out@.len() == i,
            messages@ == orig.skip(i as int),
            forall|j: int|
                0 <= j < i ==> message_reconciled(orig[j], reported@[j], #[trigger] out@[j]),
            forall|j: int|
                0 <= j < i ==> (#[trigger] out@[j]).spec_len() == spec_post_len(
                    orig[j],
                    reported@[j],
                ),
        decreases n - i,
    {
        let m = messages.remove(0);
        proof {
            assert(orig.skip(i as int).remove(0) =~= orig.skip(i as int + 1));
            assert(m == orig[i as int]);
        }
        let rep = reported[i];
        let m2 = match m {
            Message::Read { address, data, flags } => {
                let mut data = data;
                let keep: usize = if (rep as usize) < data.len() {
                    rep as usize
                } else {
                    data.len()
                };
                data.truncate(keep);
                proof {
                    assert(data@ =~= orig[i as int].spec_data().take(
                        spec_post_len(orig[i as int], rep) as int,
                    ));
                }
                Message::Read { address, data, flags }
            },
            other => other,
        };
        out.push(m2);
        i = i + 1;
    }
    *messages = out;
}

/// Two batches have the same shape when they pair message for message: the
/// same count, and each pair with the same direction and buffer length.
pub open spec fn same_shape(a: Seq<Message>, b: Seq<Message>) -> bool {
    &&& a.len() == b.len()
    &&& forall|i: int|
        0 <= i < a.len() ==> (#[trigger] a[i]).is_read() == b[i].is_read() && a[i].spec_len()
            == b[i].spec_len()
}

/// The buffer lengths a batch is left with after reconciliation against the
/// given reported lengths.
pub open spec fn spec_post_lengths(ms: Seq<Message>, reported: Seq<u16>) -> Seq<nat> {
    Seq::new(ms.len(), |i: int| spec_post_len(ms[i], reported[i]))
}

/// Repeating a transfer is idempotent in its reported lengths: two batches of
/// the same shape, with fresh buffers or not, reconciled against the same
/// reported lengths, end with the same buffer lengths.
pub proof fn lemma_transfer_lengths_deterministic(
    a: Seq<Message>,
    b: Seq<Message>,
    reported: Seq<u16>,
)
    requires
        same_shape(a, b),
    ensures
        spec_post_lengths(a, reported) =~= spec_post_lengths(b, reported),
{
    assert forall|i: int| 0 <= i < a.len() implies spec_post_len(a[i], reported[i])
        == spec_post_len(b[i], reported[i]) by {
        assert(a[i].is_read() == b[i].is_read());
        assert(a[i].spec_len() == b[i].spec_len());
    }
}

} // verus!
