//! Commands for the BPC Telexo (TXo).
//!
//! The caller is responsible for calculating the final address by adding a
//! device index (0-7) to the `BASE_ADDRESS`; see [`address`].

use vstd::prelude::*;
use vstd::slice::slice_subrange;
use crate::{be_hi, be_lo, bool_byte, i16_bits, Command, SerializationError};

verus! {

/// The base bus address for TXo modules.
pub const BASE_ADDRESS: u8 = 0x60;

/// The number of bytes in the longest Telexo command.
pub const MAX_LENGTH: usize = 4;

/// The bus address of the TXo unit with the given index (0-7): the base
/// address plus the index. Addressing is independent of encoding; it is
/// resolved here once and handed to the transport.
pub fn address(unit: u8) -> (a: u8)
    requires
        unit < 8,
    ensures
        a == BASE_ADDRESS + unit,
{
    BASE_ADDRESS + unit
}

/// All supported II commands for the Telexo.
#[derive(Debug, Clone, Copy)]
pub enum Commands {
    /// `set gate`: Sets the state of a gate output.
    /// - `port`: 0-3
    /// - `state`: `true` for high (1), `false` for low (0).
    SetGate { port: u8, state: bool },
    /// `set CV`: Sets the CV for a given output port.
    /// - `port`: 0-3
    /// - `value`: A signed 16-bit integer representing voltage.
    SetCv { port: u8, value: i16 },
    /// `set CV slew`: Sets the slew time for a given CV output.
    /// - `port`: 0-3
    /// - `ms`: The slew time in milliseconds as an unsigned 16-bit integer.
    SetCvSlew { port: u8, ms: u16 },
    /// `set osc pitch`: Sets the oscillator pitch.
    /// - `port`: 0-3
    /// - `pitch`: A signed 16-bit integer pitch value.
    SetOscPitch { port: u8, pitch: i16 },
    /// `set osc waveform`: Sets the oscillator waveform.
    /// - `port`: 0-3
    /// - `waveform`: An unsigned 16-bit value (0-5000).
    SetOscWaveform { port: u8, waveform: u16 },
    /// `set envelope mode`: Enables or disables envelope mode for an output.
    /// - `port`: 0-3
    /// - `enabled`: `true` to enable, `false` to disable.
    SetEnvelopeMode { port: u8, enabled: bool },
    /// `set envelope`: Triggers the envelope on or off.
    /// - `port`: 0-3
    /// - `on`: `true` for on, `false` for off.
    SetEnvelopeState { port: u8, on: bool },
}

impl Commands {
    /// The opcode assigned to each variant by protocol convention.
    pub open spec fn opcode(self) -> u8 {
        match self {
            Commands::SetGate { .. } => 0x00,
            Commands::SetCv { .. } => 0x11,
            Commands::SetCvSlew { .. } => 0x12,
            Commands::SetOscPitch { .. } => 0x41,
            Commands::SetOscWaveform { .. } => 0x4A,
            Commands::SetEnvelopeMode { .. } => 0x60,
            Commands::SetEnvelopeState { .. } => 0x6D,
        }
    }

    /// The number of bytes each variant requires, per the wire layout.
    pub open spec fn required_len(self) -> nat {
        match self {
            Commands::SetGate { .. } => 3,
            Commands::SetCv { .. } => 4,
            Commands::SetCvSlew { .. } => 4,
            Commands::SetOscPitch { .. } => 4,
            Commands::SetOscWaveform { .. } => 4,
            Commands::SetEnvelopeMode { .. } => 3,
            Commands::SetEnvelopeState { .. } => 3,
        }
    }

    /// All opcodes this vocabulary can reach.
    pub open spec fn opcodes() -> Set<u8> {
        set![0x00u8, 0x11u8, 0x12u8, 0x41u8, 0x4Au8, 0x60u8, 0x6Du8]
    }

    /// Every variant encodes to its fixed table length, starts with its
    /// opcode, and that opcode lies in the finite vocabulary.
    pub proof fn lemma_layout(self)
        ensures
            self.encoding().len() == self.required_len(),
            self.encoding()[0] == self.opcode(),
            Self::opcodes().contains(self.opcode()),
            Self::opcodes().finite(),
    {
    }

    /// No two variants share an opcode: equal opcodes mean the same
    /// variant kind.
    pub proof fn lemma_opcodes_distinct(a: Self, b: Self)
        ensures
            a.opcode() == b.opcode() ==> {
                &&& (a is SetGate <==> b is SetGate)
                &&& (a is SetCv <==> b is SetCv)
                &&& (a is SetCvSlew <==> b is SetCvSlew)
                &&& (a is SetOscPitch <==> b is SetOscPitch)
                &&& (a is SetOscWaveform <==> b is SetOscWaveform)
                &&& (a is SetEnvelopeMode <==> b is SetEnvelopeMode)
                &&& (a is SetEnvelopeState <==> b is SetEnvelopeState)
            },
    {
    }
}

impl Command for Commands {
    open spec fn encoding(&self) -> Seq<u8> {
        match *self {
            Commands::SetGate { port, state } => seq![0x00u8, port, bool_byte(state)],
            Commands::SetCv { port, value } => seq![
                0x11u8,
                port,
                be_hi(i16_bits(value)),
                be_lo(i16_bits(value)),
            ],
            Commands::SetCvSlew { port, ms } => seq![0x12u8, port, be_hi(ms), be_lo(ms)],
            Commands::SetOscPitch { port, pitch } => seq![
                0x41u8,
                port,
                be_hi(i16_bits(pitch)),
                be_lo(i16_bits(pitch)),
            ],
            Commands::SetOscWaveform { port, waveform } => seq![
                0x4Au8,
                port,
                be_hi(waveform),
                be_lo(waveform),
            ],
            Commands::SetEnvelopeMode { port, enabled } => seq![0x60u8, port, bool_byte(enabled)],
            Commands::SetEnvelopeState { port, on } => seq![0x6Du8, port, bool_byte(on)],
        }
    }

    open spec fn spec_max_length() -> nat {
        MAX_LENGTH as nat
    }

    proof fn lemma_encoding_fits(&self) {
    }

    fn max_length() -> (n: usize) {
        MAX_LENGTH
    }

    fn to_bytes<'a>(&self, buffer: &'a mut [u8]) -> (r: Result<&'a [u8], SerializationError>) {
        match *self {
            Self::SetGate { port, state } => {
                if buffer.len() < 3 {
                    return Err(SerializationError::BufferTooSmall);
                }
                buffer[0] = 0x00;
                buffer[1] = port;
                buffer[2] = if state { 1 } else { 0 };
                proof {
                    assert(buffer@ =~= self.encoding() + old(buffer)@.skip(3));
                }
                let out = slice_subrange(buffer, 0, 3);
                proof {
                    assert(out@ =~= self.encoding());
                }
                Ok(out)
            }
            Self::SetCv { port, value } => {
                if buffer.len() < 4 {
                    return Err(SerializationError::BufferTooSmall);
                }
                let bits: u16 = #[verifier::truncate] (value as u16);
                buffer[0] = 0x11;
                buffer[1] = port;
                buffer[2] = #[verifier::truncate] (((bits >> 8) & 0xFF) as u8);
                buffer[3] = #[verifier::truncate] ((bits & 0xFF) as u8);
                proof {
                    assert(buffer@ =~= self.encoding() + old(buffer)@.skip(4));
                }
                let out = slice_subrange(buffer, 0, 4);
                proof {
                    assert(out@ =~= self.encoding());
                }
                Ok(out)
            }
            Self::SetCvSlew { port, ms } => {
                if buffer.len() < 4 {
                    return Err(SerializationError::BufferTooSmall);
                }
                buffer[0] = 0x12;
                buffer[1] = port;
                buffer[2] = #[verifier::truncate] (((ms >> 8) & 0xFF) as u8);
                buffer[3] = #[verifier::truncate] ((ms & 0xFF) as u8);
                proof {
                    assert(buffer@ =~= self.encoding() + old(buffer)@.skip(4));
                }
                let out = slice_subrange(buffer, 0, 4);
                proof {
                    assert(out@ =~= self.encoding());
                }
                Ok(out)
            }
            Self::SetOscPitch { port, pitch } => {
                if buffer.len() < 4 {
                    return Err(SerializationError::BufferTooSmall);
                }
                let bits: u16 = #[verifier::truncate] (pitch as u16);
                buffer[0] = 0x41;
                buffer[1] = port;
                buffer[2] = #[verifier::truncate] (((bits >> 8) & 0xFF) as u8);
                buffer[3] = #[verifier::truncate] ((bits & 0xFF) as u8);
                proof {
                    assert(buffer@ =~= self.encoding() + old(buffer)@.skip(4));
                }
                let out = slice_subrange(buffer, 0, 4);
                proof {
                    assert(out@ =~= self.encoding());
                }
                Ok(out)
            }
            Self::SetOscWaveform { port, waveform } => {
                if buffer.len() < 4 {
                    return Err(SerializationError::BufferTooSmall);
                }
                buffer[0] = 0x4A;
                buffer[1] = port;
                buffer[2] = #[verifier::truncate] (((waveform >> 8) & 0xFF) as u8);
                buffer[3] = #[verifier::truncate] ((waveform & 0xFF) as u8);
                proof {
                    assert(buffer@ =~= self.encoding() + old(buffer)@.skip(4));
                }
                let out = slice_subrange(buffer, 0, 4);
                proof {
                    assert(out@ =~= self.encoding());
                }
                Ok(out)
            }
            Self::SetEnvelopeMode { port, enabled } => {
                if buffer.len() < 3 {
                    return Err(SerializationError::BufferTooSmall);
                }
                buffer[0] = 0x60;
                buffer[1] = port;
                buffer[2] = if enabled { 1 } else { 0 };
                proof {
                    assert(buffer@ =~= self.encoding() + old(buffer)@.skip(3));
                }
                let out = slice_subrange(buffer, 0, 3);
                proof {
                    assert(out@ =~= self.encoding());
                }
                Ok(out)
            }
            Self::SetEnvelopeState { port, on } => {
                if buffer.len() < 3 {
                    return Err(SerializationError::BufferTooSmall);
                }
                buffer[0] = 0x6D;
                buffer[1] = port;
                buffer[2] = if on { 1 } else { 0 };
                proof {
                    assert(buffer@ =~= self.encoding() + old(buffer)@.skip(3));
                }
                let out = slice_subrange(buffer, 0, 3);
                proof {
                    assert(out@ =~= self.encoding());
                }
                Ok(out)
            }
        }
    }
}

} // verus!
