//! Serialization of II-protocol commands for Eurorack modules.
//!
//! Each supported device has a module with a closed `Commands` vocabulary
//! and a fixed bus address. A command value is encoded into a
//! caller-supplied buffer as one opcode byte followed by the payload
//! fields in a fixed, per-opcode order, with 16-bit fields written
//! most-significant-byte first. The only failure mode is a buffer too
//! small for the variant at hand; field ranges are the caller's
//! obligation and are not checked here.

use vstd::prelude::*;

pub mod ansible;
pub mod er301;
pub mod just_friends;
pub mod telexo;

verus! {

/// Errors that can occur during command serialization.
#[derive(Debug, PartialEq, Eq, Structural, Clone, Copy)]
pub enum SerializationError {
    /// The provided buffer was too small to serialize the command.
    BufferTooSmall,
}

/// The two's-complement bit pattern of a signed 16-bit value.
pub open spec fn i16_bits(v: i16) -> u16 {
    v as u16
}

/// The high byte of a 16-bit value, sent first on the wire.
pub open spec fn be_hi(v: u16) -> u8 {
    ((v >> 8) & 0xFF) as u8
}

/// The low byte of a 16-bit value, sent second on the wire.
pub open spec fn be_lo(v: u16) -> u8 {
    (v & 0xFF) as u8
}

/// The byte that encodes a boolean state: `true` is 1, `false` is 0.
pub open spec fn bool_byte(b: bool) -> u8 {
    if b {
        1u8
    } else {
        0u8
    }
}

/// The big-endian byte pair is faithful: the high byte carries the upper
/// eight bits and the low byte the lower eight, so together they determine
/// the 16-bit value exactly.
pub proof fn lemma_be_bytes_value(v: u16)
    ensures
        v == be_hi(v) * 256 + be_lo(v),
        be_hi(v) == v / 256,
        be_lo(v) == v % 256,
{
    assert(v == (((v >> 8) & 0xFF) as u8) * 256 + ((v & 0xFF) as u8)
        && (((v >> 8) & 0xFF) as u8) == v / 256 && ((v & 0xFF) as u8) == v % 256) by (bit_vector);
}

/// Distinct signed values have distinct bit patterns, so no two commands
/// carrying different 16-bit payloads can encode to the same bytes.
pub proof fn lemma_i16_bits_injective(a: i16, b: i16)
    ensures
        i16_bits(a) == i16_bits(b) ==> a == b,
{
    assert((a as u16) == (b as u16) ==> a == b) by (bit_vector);
}

/// A command that can be serialized into an II-compatible byte message.
pub trait Command: Sized {
    /// The exact wire bytes of this command: the opcode, then the payload
    /// fields in their fixed order.
    spec fn encoding(&self) -> Seq<u8>;

    /// The declared maximum encoded length for this vocabulary.
    spec fn spec_max_length() -> nat;

    /// No variant encodes to more bytes than the declared maximum.
    proof fn lemma_encoding_fits(&self)
        ensures
            1 <= self.encoding().len() <= Self::spec_max_length(),
    ;

    /// The declared maximum encoded length, for sizing buffers.
    fn max_length() -> (n: usize)
        ensures
            n == Self::spec_max_length(),
    ;

    /// Serializes the command into the provided byte buffer.
    ///
    /// Succeeds exactly when the buffer can hold this variant's bytes,
    /// returning the written prefix of the buffer; the remainder of the
    /// buffer is left untouched. On failure nothing is written.
    fn to_bytes<'a>(&self, buffer: &'a mut [u8]) -> (r: Result<&'a [u8], SerializationError>)
        ensures
            r is Ok <==> self.encoding().len() <= old(buffer)@.len(),
            r matches Ok(out) ==> {
                &&& out@ == self.encoding()
                &&& final(buffer)@ == self.encoding() + old(buffer)@.skip(
                    self.encoding().len() as int,
                )
            },
            r matches Err(e) ==> {
                &&& e == SerializationError::BufferTooSmall
                &&& final(buffer)@ == old(buffer)@
            },
    ;
}

/// Encoding is deterministic: the bytes a command serializes to are a
/// function of the command value alone, so encoding the same command
/// twice, into any two sufficiently large buffers, yields identical
/// byte sequences.
pub proof fn lemma_encoding_deterministic<C: Command>(c: &C, out1: Seq<u8>, out2: Seq<u8>)
    requires
        out1 == c.encoding(),
        out2 == c.encoding(),
    ensures
        out1 == out2,
{
}

} // verus!
