//! Per-message quirk flags, in two vocabularies (read side and write side),
//! and their translation to and from the hardware's native 16-bit flag word.
//!
//! The translation maps each named bit independently; a value is translated
//! by taking the union of the native bits of the named flags it contains.
//! Bits outside a vocabulary are dropped by translation in either direction.

use vstd::prelude::*;

verus! {

/// Native flag bit: this descriptor is a read.
pub const M_RD: u16 = 0x0001;
/// Native flag bit: 10-bit chip address.
pub const M_TEN: u16 = 0x0010;
/// Native flag bit: the first received byte gives the remaining length.
pub const M_RECV_LEN: u16 = 0x0400;
/// Native flag bit: generate a NACK for this read.
pub const M_NO_RD_ACK: u16 = 0x0800;
/// Native flag bit: treat NACK as ACK.
pub const M_IGNORE_NAK: u16 = 0x1000;
/// Native flag bit: flip the meaning of the read/write address bit.
pub const M_REV_DIR_ADDR: u16 = 0x2000;
/// Native flag bit: suppress the START condition and address byte.
pub const M_NOSTART: u16 = 0x4000;
/// Native flag bit: force a STOP condition after this message.
pub const M_STOP: u16 = 0x8000;

/// Union of the native bits of every read-side flag.
pub const READ_FLAGS_MASK: u16 = M_TEN | M_RECV_LEN | M_NO_RD_ACK | M_REV_DIR_ADDR | M_NOSTART
    | M_STOP;

/// Union of the native bits of every write-side flag.
pub const WRITE_FLAGS_MASK: u16 = M_TEN | M_IGNORE_NAK | M_REV_DIR_ADDR | M_NOSTART | M_STOP;

/// Quirk flags that may accompany a read message.
#[derive(Clone, Copy, PartialEq, Eq, Structural, Debug)]
pub struct ReadFlags {
    /// The flag bits, in the native encoding.
    pub bits: u16,
}

/// Quirk flags that may accompany a write message.
#[derive(Clone, Copy, PartialEq, Eq, Structural, Debug)]
pub struct WriteFlags {
    /// The flag bits, in the native encoding.
    pub bits: u16,
}

/// The native word for a read-side flags value: the union, over the named
/// read flags present in `bits`, of their native bits.
pub open spec fn spec_read_to_native(bits: u16) -> u16 {
    (if bits & M_TEN != 0 { M_TEN } else { 0 }) | (if bits & M_RECV_LEN != 0 {
        M_RECV_LEN
    } else {
        0
    }) | (if bits & M_NO_RD_ACK != 0 { M_NO_RD_ACK } else { 0 }) | (if bits & M_REV_DIR_ADDR != 0 {
        M_REV_DIR_ADDR
    } else {
        0
    }) | (if bits & M_NOSTART != 0 { M_NOSTART } else { 0 }) | (if bits & M_STOP != 0 {
        M_STOP
    } else {
        0
    })
}

/// The read-side flags recognized in a native word: the union, over the named
/// read flags present in `bits`, of their bits.
pub open spec fn spec_read_from_native(bits: u16) -> ReadFlags {
    ReadFlags { bits: spec_read_to_native(bits) }
}

/// The native word for a write-side flags value.
pub open spec fn spec_write_to_native(bits: u16) -> u16 {
    (if bits & M_TEN != 0 { M_TEN } else { 0 }) | (if bits & M_IGNORE_NAK != 0 {
        M_IGNORE_NAK
    } else {
        0
    }) | (if bits & M_REV_DIR_ADDR != 0 { M_REV_DIR_ADDR } else { 0 }) | (if bits & M_NOSTART != 0 {
        M_NOSTART
    } else {
        0
    }) | (if bits & M_STOP != 0 { M_STOP } else { 0 })
}

/// The write-side flags recognized in a native word.
pub open spec fn spec_write_from_native(bits: u16) -> WriteFlags {
    WriteFlags { bits: spec_write_to_native(bits) }
}

/// The per-bit union over the read vocabulary equals masking by the union of
/// its bits.
pub proof fn lemma_read_to_native_is_mask(bits: u16)
    by (bit_vector)
    ensures
        spec_read_to_native(bits) == bits & READ_FLAGS_MASK,
{
}

/// The per-bit union over the write vocabulary equals masking by the union of
/// its bits.
pub proof fn lemma_write_to_native_is_mask(bits: u16)
    by (bit_vector)
    ensures
        spec_write_to_native(bits) == bits & WRITE_FLAGS_MASK,
{
}

impl ReadFlags {
    /// A flags value holds only bits of the read vocabulary.
    pub open spec fn wf(self) -> bool {
        self.bits & READ_FLAGS_MASK == self.bits
    }

    /// No flags set.
    pub fn empty() -> (r: Self)
        ensures
            r.bits == 0,
            r.wf(),
    {
        proof {
            assert(0u16 & READ_FLAGS_MASK == 0u16) by (bit_vector);
        }
        ReadFlags { bits: 0 }
    }

    /// The given bits, restricted to the read vocabulary.
    pub fn from_bits_truncate(bits: u16) -> (r: Self)
        ensures
            r == spec_read_from_native(bits),
            r.bits == bits & READ_FLAGS_MASK,
            r.wf(),
    {
        proof {
            lemma_read_to_native_is_mask(bits);
            assert((bits & READ_FLAGS_MASK) & READ_FLAGS_MASK == bits & READ_FLAGS_MASK)
                by (bit_vector);
        }
        ReadFlags { bits: bits & READ_FLAGS_MASK }
    }

    /// The raw bit pattern.
    pub fn bits(&self) -> (r: u16)
        ensures
            r == self.bits,
    {
        self.bits
    }

    /// Whether every flag of `other` is set in `self`.
    pub fn contains(&self, other: Self) -> (r: bool)
        ensures
            r == (self.bits & other.bits == other.bits),
    {
        self.bits & other.bits == other.bits
    }

    /// The union of two flags values.
    pub fn union(self, other: Self) -> (r: Self)
        ensures
            r.bits == self.bits | other.bits,
    {
        ReadFlags { bits: self.bits | other.bits }
    }

    /// The 10-bit chip address flag.
    pub fn tenbit_addr() -> (r: Self)
        ensures
            r.bits == M_TEN,
    {
        ReadFlags { bits: M_TEN }
    }

    /// The receive-length flag.
    pub fn receive_len() -> (r: Self)
        ensures
            r.bits == M_RECV_LEN,
    {
        ReadFlags { bits: M_RECV_LEN }
    }

    /// The NACK-generation flag.
    pub fn nack() -> (r: Self)
        ensures
            r.bits == M_NO_RD_ACK,
    {
        ReadFlags { bits: M_NO_RD_ACK }
    }

    /// The direction-bit reversal flag.
    pub fn reverse_rw() -> (r: Self)
        ensures
            r.bits == M_REV_DIR_ADDR,
    {
        ReadFlags { bits: M_REV_DIR_ADDR }
    }

    /// The no-START flag.
    pub fn no_start() -> (r: Self)
        ensures
            r.bits == M_NOSTART,
    {
        ReadFlags { bits: M_NOSTART }
    }

    /// The forced-STOP flag.
    pub fn stop() -> (r: Self)
        ensures
            r.bits == M_STOP,
    {
        ReadFlags { bits: M_STOP }
    }

    /// Translate to the hardware's native flag word, mapping each named bit
    /// independently and dropping anything outside the read vocabulary.
    pub fn to_native(self) -> (r: u16)
        ensures
            r == spec_read_to_native(self.bits),
            r == self.bits & READ_FLAGS_MASK,
            self.wf() ==> r == self.bits,
    {
        proof {
            lemma_read_to_native_is_mask(self.bits);
        }
        self.bits & READ_FLAGS_MASK
    }

    /// Translate back from a native flag word, keeping the bits of the read
    /// vocabulary.
    pub fn from_native(bits: u16) -> (r: Self)
        ensures
            r == spec_read_from_native(bits),
            r.bits == bits & READ_FLAGS_MASK,
            r.wf(),
    {
        Self::from_bits_truncate(bits)
    }
}

impl WriteFlags {
    /// A flags value holds only bits of the write vocabulary.
    pub open spec fn wf(self) -> bool {
        self.bits & WRITE_FLAGS_MASK == self.bits
    }

    /// No flags set.
    pub fn empty() -> (r: Self)
        ensures
            r.bits == 0,
            r.wf(),
    {
        proof {
            assert(0u16 & WRITE_FLAGS_MASK == 0u16) by (bit_vector);
        }
        WriteFlags { bits: 0 }
    }

    /// The given bits, restricted to the write vocabulary.
    pub fn from_bits_truncate(bits: u16) -> (r: Self)
        ensures
            r == spec_write_from_native(bits),
            r.bits == bits & WRITE_FLAGS_MASK,
            r.wf(),
    {
        proof {
            lemma_write_to_native_is_mask(bits);
            assert((bits & WRITE_FLAGS_MASK) & WRITE_FLAGS_MASK == bits & WRITE_FLAGS_MASK)
                by (bit_vector);
        }
        WriteFlags { bits: bits & WRITE_FLAGS_MASK }
    }

    /// The raw bit pattern.
    pub fn bits(&self) -> (r: u16)
        ensures
            r == self.bits,
    {
        self.bits
    }

    /// Whether every flag of `other` is set in `self`.
    pub fn contains(&self, other: Self) -> (r: bool)
        ensures
            r == (self.bits & other.bits == other.bits),
    {
        self.bits & other.bits == other.bits
    }

    /// The union of two flags values.
    pub fn union(self, other: Self) -> (r: Self)
        ensures
            r.bits == self.bits | other.bits,
    {
        WriteFlags { bits: self.bits | other.bits }
    }

    /// The 10-bit chip address flag.
    pub fn tenbit_addr() -> (r: Self)
        ensures
            r.bits == M_TEN,
    {
        WriteFlags { bits: M_TEN }
    }

    /// The ignore-NACK flag.
    pub fn ignore_nack() -> (r: Self)
        ensures
            r.bits == M_IGNORE_NAK,
    {
        WriteFlags { bits: M_IGNORE_NAK }
    }

    /// The direction-bit reversal flag.
    pub fn reverse_rw() -> (r: Self)
        ensures
            r.bits == M_REV_DIR_ADDR,
    {
        WriteFlags { bits: M_REV_DIR_ADDR }
    }

    /// The no-START flag.
    pub fn no_start() -> (r: Self)
        ensures
            r.bits == M_NOSTART,
    {
        WriteFlags { bits: M_NOSTART }
    }

    /// The forced-STOP flag.
    pub fn stop() -> (r: Self)
        ensures
            r.bits == M_STOP,
    {
        WriteFlags { bits: M_STOP }
    }

    /// Translate to the hardware's native flag word, mapping each named bit
    /// independently and dropping anything outside the write vocabulary.
    pub fn to_native(self) -> (r: u16)
        ensures
            r == spec_write_to_native(self.bits),
            r == self.bits & WRITE_FLAGS_MASK,
            self.wf() ==> r == self.bits,
    {
        proof {
            lemma_write_to_native_is_mask(self.bits);
        }
        self.bits & WRITE_FLAGS_MASK
    }

    /// Translate back from a native flag word, keeping the bits of the write
    /// vocabulary.
    pub fn from_native(bits: u16) -> (r: Self)
        ensures
            r == spec_write_from_native(bits),
            r.bits == bits & WRITE_FLAGS_MASK,
            r.wf(),
    {
        Self::from_bits_truncate(bits)
    }
}

/// Translating a read-side flags value to the native word and back yields the
/// original restricted to the bits the read vocabulary recognizes; a value
/// composed only of recognized bits round-trips unchanged.
pub proof fn lemma_read_flags_round_trip(f: ReadFlags)
    ensures
        spec_read_from_native(spec_read_to_native(f.bits)).bits == f.bits & READ_FLAGS_MASK,
        f.wf() ==> spec_read_from_native(spec_read_to_native(f.bits)) == f,
{
    let b = f.bits;
    lemma_read_to_native_is_mask(b);
    lemma_read_to_native_is_mask(b & READ_FLAGS_MASK);
    assert((b & READ_FLAGS_MASK) & READ_FLAGS_MASK == b & READ_FLAGS_MASK) by (bit_vector);
}

/// Translating a write-side flags value to the native word and back yields
/// the original restricted to the bits the write vocabulary recognizes; a
/// value composed only of recognized bits round-trips unchanged.
pub proof fn lemma_write_flags_round_trip(f: WriteFlags)
    ensures
        spec_write_from_native(spec_write_to_native(f.bits)).bits == f.bits & WRITE_FLAGS_MASK,
        f.wf() ==> spec_write_from_native(spec_write_to_native(f.bits)) == f,
{
    let b = f.bits;
    lemma_write_to_native_is_mask(b);
    lemma_write_to_native_is_mask(b & WRITE_FLAGS_MASK);
    assert((b & WRITE_FLAGS_MASK) & WRITE_FLAGS_MASK == b & WRITE_FLAGS_MASK) by (bit_vector);
}

} // verus!
