//! Commands for the Orthogonal Devices ER-301.

use vstd::prelude::*;
use vstd::slice::slice_subrange;
use crate::{be_hi, be_lo, bool_byte, i16_bits, Command, SerializationError};

verus! {

/// The default bus address for the first ER-301. Addresses can go up to `0x33`.
pub const ADDRESS: u8 = 0x31;

/// The number of bytes in the longest ER-301 command.
pub const MAX_LENGTH: usize = 4;

/// All supported II commands for the ER-301.
#[derive(Debug, Clone, Copy)]
pub enum Commands {
    /// `set gate`: Sets the state of a gate output.
    /// - `port`: 0-99
    /// - `state`: `true` for high (1), `false` for low (0).
    SetGate { port: u8, state: bool },
    /// `set CV`: Sets the CV for a given output port.
    /// - `port`: 0-99
    /// - `value`: A signed 16-bit integer representing voltage.
    SetCv { port: u8, value: i16 },
    /// `set CV slew`: Sets the slew time for a given CV output.
    /// - `port`: 0-99
    /// - `ms`: The slew time in milliseconds as an unsigned 16-bit integer.
    SetCvSlew { port: u8, ms: u16 },
}

impl Commands {
    /// The opcode assigned to each variant by protocol convention.
    pub open spec fn opcode(self) -> u8 {
        match self {
            Commands::SetGate { .. } => 0x00,
            Commands::SetCv { .. } => 0x11,
            Commands::SetCvSlew { .. } => 0x12,
        }
    }

    /// The number of bytes each variant requires, per the wire layout.
    pub open spec fn required_len(self) -> nat {
        match self {
            Commands::SetGate { .. } => 3,
            Commands::SetCv { .. } => 4,
            Commands::SetCvSlew { .. } => 4,
        }
    }

    /// All opcodes this vocabulary can reach.
    pub open spec fn opcodes() -> Set<u8> {
        set![0x00u8, 0x11u8, 0x12u8]
    }

    /// Every variant encodes to its fixed table length, starts with its
    /// opcode, and that opcode lies in the finite vocabulary.
    pub proof fn lemma_layout(self)
        ensures
            self.encoding().len() == self.required_len(),
            self.encoding()[0] == self.opcode(),
            Self::opcodes().contains(self.opcode()),
            Self::opcodes().finite(),
    {
    }

    /// No two variants share an opcode: equal opcodes mean the same
    /// variant kind.
    pub proof fn lemma_opcodes_distinct(a: Self, b: Self)
        ensures
            a.opcode() == b.opcode() ==> {
                &&& (a is SetGate <==> b is SetGate)
                &&& (a is SetCv <==> b is SetCv)
                &&& (a is SetCvSlew <==> b is SetCvSlew)
            },
    {
    }
}

impl Command for Commands {
    open spec fn encoding(&self) -> Seq<u8> {
        match *self {
            Commands::SetGate { port, state } => seq![0x00u8, port, bool_byte(state)],
            Commands::SetCv { port, value } => seq![
                0x11u8,
                port,
                be_hi(i16_bits(value)),
                be_lo(i16_bits(value)),
            ],
            Commands::SetCvSlew { port, ms } => seq![0x12u8, port, be_hi(ms), be_lo(ms)],
        }
    }

    open spec fn spec_max_length() -> nat {
        MAX_LENGTH as nat
    }

    proof fn lemma_encoding_fits(&self) {
    }

    fn max_length() -> (n: usize) {
        MAX_LENGTH
    }

    fn to_bytes<'a>(&self, buffer: &'a mut [u8]) -> (r: Result<&'a [u8], SerializationError>) {
        match *self {
            Self::SetGate { port, state } => {
                if buffer.len() < 3 {
                    return Err(SerializationError::BufferTooSmall);
                }
                buffer[0] = 0x00;
                buffer[1] = port;
                buffer[2] = if state { 1 } else { 0 };
                proof {
                    assert(buffer@ =~= self.encoding() + old(buffer)@.skip(3));
                }
                let out = slice_subrange(buffer, 0, 3);
                proof {
                    assert(out@ =~= self.encoding());
                }
                Ok(out)
            }
            Self::SetCv { port, value } => {
                if buffer.len() < 4 {
                    return Err(SerializationError::BufferTooSmall);
                }
                let bits: u16 = #[verifier::truncate] (value as u16);
                buffer[0] = 0x11;
                buffer[1] = port;
                buffer[2] = #[verifier::truncate] (((bits >> 8) & 0xFF) as u8);
                buffer[3] = #[verifier::truncate] ((bits & 0xFF) as u8);
                proof {
                    assert(buffer@ =~= self.encoding() + old(buffer)@.skip(4));
                }
                let out = slice_subrange(buffer, 0, 4);
                proof {
                    assert(out@ =~= self.encoding());
                }
                Ok(out)
            }
            Self::SetCvSlew { port, ms } => {
                if buffer.len() < 4 {
                    return Err(SerializationError::BufferTooSmall);
                }
                buffer[0] = 0x12;
                buffer[1] = port;
                buffer[2] = #[verifier::truncate] (((ms >> 8) & 0xFF) as u8);
                buffer[3] = #[verifier::truncate] ((ms & 0xFF) as u8);
                proof {
                    assert(buffer@ =~= self.encoding() + old(buffer)@.skip(4));
                }
                let out = slice_subrange(buffer, 0, 4);
                proof {
                    assert(out@ =~= self.encoding());
                }
                Ok(out)
            }
        }
    }
}

} // verus!
