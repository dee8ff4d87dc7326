//! The batch transfer engine against a deterministic fake transport: the
//! transport is a function from the prepared descriptors to the lengths the
//! hardware would report.

use i2c_linux::flags::{M_NO_RD_ACK, M_RD, ReadFlags, WriteFlags};
use i2c_linux::message::Message;
use i2c_linux::transfer::{Descriptor, MAX_MESSAGES, transfer_complete, transfer_prepare};

fn read_msg(address: u16, len: usize) -> Message {
    Message::Read { address, data: vec![0u8; len], flags: ReadFlags::empty() }
}

fn write_msg(address: u16, data: Vec<u8>) -> Message {
    Message::Write { address, data, flags: WriteFlags::empty() }
}

/// A fake transport that reports every descriptor's requested length back
/// unchanged, as a driver does for writes and full reads.
fn echo_transport(descs: &[Descriptor]) -> Vec<u16> {
    descs.iter().map(|d| d.len).collect()
}

#[test]
fn batch_of_max_messages_succeeds() {
    let mut msgs: Vec<Message> = (0..MAX_MESSAGES).map(|i| read_msg(0x10 + i as u16, 4)).collect();
    let descs = transfer_prepare(&msgs).expect("a full batch must be accepted");
    assert_eq!(descs.len(), MAX_MESSAGES);
    let reported = echo_transport(&descs);
    transfer_complete(&mut msgs, &reported);
    for m in &msgs {
        assert_eq!(m.len(), 4);
    }
}

#[test]
fn batch_over_capacity_fails_before_any_io() {
    let msgs: Vec<Message> = (0..MAX_MESSAGES + 1).map(|_| read_msg(0x20, 4)).collect();
    // No descriptors are ever produced, so no transaction can be issued.
    assert!(transfer_prepare(&msgs).is_none());
}

#[test]
fn oversized_message_fails_fast() {
    let msgs = vec![write_msg(0x21, vec![0u8; 0x10000])];
    assert!(transfer_prepare(&msgs).is_none());
}

#[test]
fn empty_batch_is_accepted() {
    let mut msgs: Vec<Message> = Vec::new();
    let descs = transfer_prepare(&msgs).expect("an empty batch is within capacity");
    assert!(descs.is_empty());
    transfer_complete(&mut msgs, &Vec::new());
    assert!(msgs.is_empty());
}

#[test]
fn descriptors_carry_address_length_and_native_flags() {
    let msgs = vec![
        Message::Read { address: 0x50, data: vec![0u8; 6], flags: ReadFlags::nack() },
        write_msg(0x51, vec![1, 2, 3]),
    ];
    let descs = transfer_prepare(&msgs).unwrap();
    assert_eq!(descs[0], Descriptor { addr: 0x50, flags: M_NO_RD_ACK | M_RD, len: 6 });
    assert_eq!(descs[1], Descriptor { addr: 0x51, flags: 0, len: 3 });
}

#[test]
fn read_buffer_truncated_to_reported_length() {
    let mut msgs = vec![read_msg(0x50, 32)];
    let descs = transfer_prepare(&msgs).unwrap();
    assert_eq!(descs[0].len, 32);
    // The transport reports that only 5 of the 32 requested bytes arrived.
    let reported = vec![5u16];
    transfer_complete(&mut msgs, &reported);
    assert_eq!(msgs[0].len(), 5);
}

#[test]
fn write_buffer_left_unchanged() {
    let mut msgs = vec![write_msg(0x52, vec![9, 8, 7])];
    let reported = vec![0u16];
    transfer_complete(&mut msgs, &reported);
    match &msgs[0] {
        Message::Write { data, .. } => assert_eq!(data.as_slice(), &[9, 8, 7]),
        Message::Read { .. } => panic!("a write must stay a write"),
    }
}

#[test]
fn reported_length_beyond_buffer_keeps_buffer_whole() {
    let mut msgs = vec![read_msg(0x53, 8)];
    let reported = vec![50u16];
    transfer_complete(&mut msgs, &reported);
    assert_eq!(msgs[0].len(), 8);
}

#[test]
fn repeated_transfer_reports_same_lengths() {
    let build = || {
        vec![
            write_msg(0x60, vec![0x01]),
            Message::Read { address: 0x60, data: vec![0xEE; 16], flags: ReadFlags::empty() },
        ]
    };
    // A deterministic fake transport: a write moves all its bytes, a read
    // sees the device hand back 7 bytes.
    let transport = |descs: &[Descriptor]| -> Vec<u16> {
        descs.iter().map(|d| if d.flags & M_RD != 0 { 7.min(d.len) } else { d.len }).collect()
    };

    let mut first = build();
    let reported = transport(&transfer_prepare(&first).unwrap());
    transfer_complete(&mut first, &reported);

    // The same batch again, with fresh buffers.
    let mut second = build();
    let reported = transport(&transfer_prepare(&second).unwrap());
    transfer_complete(&mut second, &reported);

    let lengths = |msgs: &[Message]| msgs.iter().map(|m| m.len()).collect::<Vec<_>>();
    assert_eq!(lengths(&first), lengths(&second));
    assert_eq!(lengths(&first), vec![1, 7]);
}
