//! Commands for the Mannequins / Whimsical Raps Just Friends.

use vstd::prelude::*;
use vstd::slice::slice_subrange;
use crate::{be_hi, be_lo, bool_byte, i16_bits, Command, SerializationError};

verus! {

/// The fixed bus address for Just Friends.
pub const ADDRESS: u8 = 0x70;

/// The number of bytes in the longest Just Friends command.
pub const MAX_LENGTH: usize = 6;

/// All supported II commands for Just Friends.
#[derive(Debug, Clone, Copy)]
pub enum Commands {
    /// `set gate`: Sets the state of a gate output.
    /// - `output`: 1-6, or 0 for all.
    /// - `state`: `true` for high (1), `false` for low (0).
    SetGate { output: u8, state: bool },
    /// `play note`: Triggers a note on one or all outputs.
    /// - `output`: 1-6, or 0 for all.
    /// - `pitch`: Signed 16-bit note pitch value.
    /// - `volume`: Signed 16-bit velocity/volume value.
    PlayNote { output: u8, pitch: i16, volume: i16 },
}

impl Commands {
    /// The opcode assigned to each variant by protocol convention.
    pub open spec fn opcode(self) -> u8 {
        match self {
            Commands::SetGate { .. } => 0x01,
            Commands::PlayNote { .. } => 0x08,
        }
    }

    /// The number of bytes each variant requires, per the wire layout.
    pub open spec fn required_len(self) -> nat {
        match self {
            Commands::SetGate { .. } => 3,
            Commands::PlayNote { .. } => 6,
        }
    }

    /// All opcodes this vocabulary can reach.
    pub open spec fn opcodes() -> Set<u8> {
        set![0x01u8, 0x08u8]
    }

    /// Every variant encodes to its fixed table length, starts with its
    /// opcode, and that opcode lies in the finite vocabulary.
    pub proof fn lemma_layout(self)
        ensures
            self.encoding().len() == self.required_len(),
            self.encoding()[0] == self.opcode(),
            Self::opcodes().contains(self.opcode()),
            Self::opcodes().finite(),
    {
    }

    /// No two variants share an opcode: equal opcodes mean the same
    /// variant kind.
    pub proof fn lemma_opcodes_distinct(a: Self, b: Self)
        ensures
            a.opcode() == b.opcode() ==> {
                &&& (a is SetGate <==> b is SetGate)
                &&& (a is PlayNote <==> b is PlayNote)
            },
    {
    }
}

impl Command for Commands {
    open spec fn encoding(&self) -> Seq<u8> {
        match *self {
            Commands::SetGate { output, state } => seq![0x01u8, output, bool_byte(state)],
            Commands::PlayNote { output, pitch, volume } => seq![
                0x08u8,
                output,
                be_hi(i16_bits(pitch)),
                be_lo(i16_bits(pitch)),
                be_hi(i16_bits(volume)),
                be_lo(i16_bits(volume)),
            ],
        }
    }

    open spec fn spec_max_length() -> nat {
        MAX_LENGTH as nat
    }

    proof fn lemma_encoding_fits(&self) {
    }

    fn max_length() -> (n: usize) {
        MAX_LENGTH
    }

    fn to_bytes<'a>(&self, buffer: &'a mut [u8]) -> (r: Result<&'a [u8], SerializationError>) {
        match *self {
            Self::SetGate { output, state } => {
                if buffer.len() < 3 {
                    return Err(SerializationError::BufferTooSmall);
                }
                buffer[0] = 0x01;
                buffer[1] = output;
                buffer[2] = if state { 1 } else { 0 };
                proof {
                    assert(buffer@ =~= self.encoding() + old(buffer)@.skip(3));
                }
                let out = slice_subrange(buffer, 0, 3);
                proof {
                    assert(out@ =~= self.encoding());
                }
                Ok(out)
            }
            Self::PlayNote { output, pitch, volume } => {
                if buffer.len() < 6 {
                    return Err(SerializationError::BufferTooSmall);
                }
                let pitch_bits: u16 = #[verifier::truncate] (pitch as u16);
                let volume_bits: u16 = #[verifier::truncate] (volume as u16);
                buffer[0] = 0x08;
                buffer[1] = output;
                buffer[2] = #[verifier::truncate] (((pitch_bits >> 8) & 0xFF) as u8);
                buffer[3] = #[verifier::truncate] ((pitch_bits & 0xFF) as u8);
                buffer[4] = #[verifier::truncate] (((volume_bits >> 8) & 0xFF) as u8);
                buffer[5] = #[verifier::truncate] ((volume_bits & 0xFF) as u8);
                proof {
                    assert(buffer@ =~= self.encoding() + old(buffer)@.skip(6));
                }
                let out = slice_subrange(buffer, 0, 6);
                proof {
                    assert(out@ =~= self.encoding());
                }
                Ok(out)
            }
        }
    }
}

} // verus!
