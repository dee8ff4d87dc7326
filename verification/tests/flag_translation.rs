//! Flag translation between the typed vocabularies and the native word.

use i2c_linux::flags::{
    M_IGNORE_NAK, M_NOSTART, M_NO_RD_ACK, M_RECV_LEN, M_REV_DIR_ADDR, M_STOP, M_TEN,
    READ_FLAGS_MASK, ReadFlags, WRITE_FLAGS_MASK, WriteFlags,
};

#[test]
fn read_flags_round_trip_recognized_bits() {
    let cases: [u16; 8] = [
        0,
        M_TEN,
        M_RECV_LEN,
        M_NO_RD_ACK | M_STOP,
        M_REV_DIR_ADDR,
        M_NOSTART | M_TEN,
        M_RECV_LEN | M_NO_RD_ACK | M_REV_DIR_ADDR | M_NOSTART | M_STOP,
        READ_FLAGS_MASK,
    ];
    for bits in cases {
        let f = ReadFlags { bits };
        assert_eq!(ReadFlags::from_native(f.to_native()), f);
    }
}

#[test]
fn write_flags_round_trip_recognized_bits() {
    let cases: [u16; 7] = [
        0,
        M_TEN,
        M_IGNORE_NAK,
        M_REV_DIR_ADDR | M_STOP,
        M_NOSTART,
        M_IGNORE_NAK | M_REV_DIR_ADDR | M_NOSTART | M_STOP,
        WRITE_FLAGS_MASK,
    ];
    for bits in cases {
        let f = WriteFlags { bits };
        assert_eq!(WriteFlags::from_native(f.to_native()), f);
    }
}

#[test]
fn translation_drops_unrecognized_bits() {
    // The read vocabulary has no ignore-NACK flag and the write vocabulary
    // has no receive-length flag; the low read bit belongs to neither.
    assert_eq!(ReadFlags { bits: 0xFFFF }.to_native(), READ_FLAGS_MASK);
    assert_eq!(WriteFlags { bits: 0xFFFF }.to_native(), WRITE_FLAGS_MASK);
    assert_eq!(ReadFlags { bits: M_IGNORE_NAK | 0x0001 }.to_native(), 0);
    assert_eq!(WriteFlags { bits: M_RECV_LEN | 0x0001 }.to_native(), 0);
    assert_eq!(ReadFlags::from_native(0xFFFF).bits, READ_FLAGS_MASK);
    assert_eq!(WriteFlags::from_native(0xFFFF).bits, WRITE_FLAGS_MASK);
}

#[test]
fn flag_constructors_carry_their_native_bit() {
    assert_eq!(ReadFlags::empty().bits, 0);
    assert_eq!(ReadFlags::tenbit_addr().bits, M_TEN);
    assert_eq!(ReadFlags::receive_len().bits, M_RECV_LEN);
    assert_eq!(ReadFlags::nack().bits, M_NO_RD_ACK);
    assert_eq!(ReadFlags::reverse_rw().bits, M_REV_DIR_ADDR);
    assert_eq!(ReadFlags::no_start().bits, M_NOSTART);
    assert_eq!(ReadFlags::stop().bits, M_STOP);
    assert_eq!(WriteFlags::empty().bits, 0);
    assert_eq!(WriteFlags::tenbit_addr().bits, M_TEN);
    assert_eq!(WriteFlags::ignore_nack().bits, M_IGNORE_NAK);
    assert_eq!(WriteFlags::reverse_rw().bits, M_REV_DIR_ADDR);
    assert_eq!(WriteFlags::no_start().bits, M_NOSTART);
    assert_eq!(WriteFlags::stop().bits, M_STOP);
}

#[test]
fn union_and_contains() {
    let f = ReadFlags::nack().union(ReadFlags::stop());
    assert_eq!(f.bits, M_NO_RD_ACK | M_STOP);
    assert!(f.contains(ReadFlags::nack()));
    assert!(f.contains(ReadFlags::stop()));
    assert!(!f.contains(ReadFlags::no_start()));
    let w = WriteFlags::ignore_nack().union(WriteFlags::no_start());
    assert!(w.contains(WriteFlags::ignore_nack()));
    assert!(!w.contains(WriteFlags::stop()));
}
