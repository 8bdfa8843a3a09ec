//! Commands for the Monome Ansible module.

use vstd::prelude::*;
use vstd::slice::slice_subrange;
use crate::{be_hi, be_lo, bool_byte, i16_bits, Command, SerializationError};

verus! {

/// The fixed bus address for Ansible.
pub const ADDRESS: u8 = 0x20;

/// The number of bytes in the longest Ansible command.
pub const MAX_LENGTH: usize = 4;

/// All supported II commands for Ansible.
#[derive(Debug, Clone, Copy)]
pub enum Commands {
    /// Sets the CV for a given output.
    /// - `port`: 0-3
    /// - `value`: A signed 16-bit integer representing voltage.
    SetCv { port: u8, value: i16 },
    /// Sets the slew time for a given CV output.
    /// - `port`: 0-3
    /// - `ms`: The slew time in milliseconds.
    SetCvSlew { port: u8, ms: u16 },
    /// A special mapping command, often used by grid/fader controllers.
    /// `device_port` is a calculated value, typically `(fader_index / 4) << 1`.
    /// - `device_port`: The calculated target device sub-address.
    /// - `value`: An unsigned 16-bit fader value.
    SetCvFromFader { device_port: u8, value: u16 },
    /// Sets the state of a trigger output.
    /// - `port`: 0-3
    /// - `state`: `true` for high (1), `false` for low (0).
    SetTrState { port: u8, state: bool },
    /// Toggles the state of a trigger output.
    /// - `port`: 0-3
    SetTrToggle { port: u8 },
    /// Sends a pulse to a trigger output.
    /// - `port`: 0-3
    SetTrPulse { port: u8 },
    /// Sets the pulse duration for a trigger output.
    /// - `port`: 0-3
    /// - `ms`: The pulse duration in milliseconds.
    SetTrPulseDuration { port: u8, ms: u16 },
    /// Loads a preset.
    /// - `preset`: 0-7
    LoadPreset { preset: u8 },
    /// Saves the current state to a preset.
    /// - `preset`: 0-7
    SavePreset { preset: u8 },
    /// In Kria, sets the step value. Not applicable to other apps.
    /// - `track`: 1-4
    /// - `step`: 0-15
    /// - `state`: 0=off, 1=on, 2=toggle
    KriaSetStep { track: u8, step: u8, state: u8 },
}

impl Commands {
    /// The opcode assigned to each variant by protocol convention.
    pub open spec fn opcode(self) -> u8 {
        match self {
            Commands::SetCv { .. } => 0x01,
            Commands::SetCvSlew { .. } => 0x02,
            Commands::SetCvFromFader { .. } => 0x06,
            Commands::SetTrState { .. } => 0x10,
            Commands::SetTrToggle { .. } => 0x11,
            Commands::SetTrPulse { .. } => 0x12,
            Commands::SetTrPulseDuration { .. } => 0x13,
            Commands::LoadPreset { .. } => 0x20,
            Commands::SavePreset { .. } => 0x21,
            Commands::KriaSetStep { .. } => 0x30,
        }
    }

    /// The number of bytes each variant requires, per the wire layout.
    pub open spec fn required_len(self) -> nat {
        match self {
            Commands::SetCv { .. } => 4,
            Commands::SetCvSlew { .. } => 4,
            Commands::SetCvFromFader { .. } => 4,
            Commands::SetTrState { .. } => 3,
            Commands::SetTrToggle { .. } => 2,
            Commands::SetTrPulse { .. } => 2,
            Commands::SetTrPulseDuration { .. } => 4,
            Commands::LoadPreset { .. } => 2,
            Commands::SavePreset { .. } => 2,
            Commands::KriaSetStep { .. } => 4,
        }
    }

    /// All opcodes this vocabulary can reach.
    pub open spec fn opcodes() -> Set<u8> {
        set![0x01u8, 0x02u8, 0x06u8, 0x10u8, 0x11u8, 0x12u8, 0x13u8, 0x20u8, 0x21u8, 0x30u8]
    }

    /// Every variant encodes to its fixed table length, starts with its
    /// opcode, and that opcode lies in the finite vocabulary.
    pub proof fn lemma_layout(self)
        ensures
            self.encoding().len() == self.required_len(),
            self.encoding()[0] == self.opcode(),
            Self::opcodes().contains(self.opcode()),
            Self::opcodes().finite(),
    {
    }

    /// No two variants share an opcode: equal opcodes mean the same
    /// variant kind.
    pub proof fn lemma_opcodes_distinct(a: Self, b: Self)
        ensures
            a.opcode() == b.opcode() ==> {
                &&& (a is SetCv <==> b is SetCv)
                &&& (a is SetCvSlew <==> b is SetCvSlew)
                &&& (a is SetCvFromFader <==> b is SetCvFromFader)
                &&& (a is SetTrState <==> b is SetTrState)
                &&& (a is SetTrToggle <==> b is SetTrToggle)
                &&& (a is SetTrPulse <==> b is SetTrPulse)
                &&& (a is SetTrPulseDuration <==> b is SetTrPulseDuration)
                &&& (a is LoadPreset <==> b is LoadPreset)
                &&& (a is SavePreset <==> b is SavePreset)
                &&& (a is KriaSetStep <==> b is KriaSetStep)
            },
    {
    }
}

impl Command for Commands {
    open spec fn encoding(&self) -> Seq<u8> {
        match *self {
            Commands::SetCv { port, value } => seq![
                0x01u8,
                port,
                be_hi(i16_bits(value)),
                be_lo(i16_bits(value)),
            ],
            Commands::SetCvSlew { port, ms } => seq![0x02u8, port, be_hi(ms), be_lo(ms)],
            Commands::SetCvFromFader { device_port, value } => seq![
                0x06u8,
                device_port,
                be_hi(value),
                be_lo(value),
            ],
            Commands::SetTrState { port, state } => seq![0x10u8, port, bool_byte(state)],
            Commands::SetTrToggle { port } => seq![0x11u8, port],
            Commands::SetTrPulse { port } => seq![0x12u8, port],
            Commands::SetTrPulseDuration { port, ms } => seq![0x13u8, port, be_hi(ms), be_lo(ms)],
            Commands::LoadPreset { preset } => seq![0x20u8, preset],
            Commands::SavePreset { preset } => seq![0x21u8, preset],
            Commands::KriaSetStep { track, step, state } => seq![0x30u8, track, step, state],
        }
    }

    open spec fn spec_max_length() -> nat {
        MAX_LENGTH as nat
    }

    proof fn lemma_encoding_fits(&self) {
    }

    fn max_length() -> (n: usize) {
        MAX_LENGTH
    }

    fn to_bytes<'a>(&self, buffer: &'a mut [u8]) -> (r: Result<&'a [u8], SerializationError>) {
        match *self {
            Self::SetCv { port, value } => {
                if buffer.len() < 4 {
                    return Err(SerializationError::BufferTooSmall);
                }
                let bits: u16 = #[verifier::truncate] (value as u16);
                buffer[0] = 0x01;
                buffer[1] = port;
                buffer[2] = #[verifier::truncate] (((bits >> 8) & 0xFF) as u8);
                buffer[3] = #[verifier::truncate] ((bits & 0xFF) as u8);
                proof {
                    assert(buffer@ =~= self.encoding() + old(buffer)@.skip(4));
                }
                let out = slice_subrange(buffer, 0, 4);
                proof {
                    assert(out@ =~= self.encoding());
                }
                Ok(out)
            }
            Self::SetCvSlew { port, ms } => {
                if buffer.len() < 4 {
                    return Err(SerializationError::BufferTooSmall);
                }
                buffer[0] = 0x02;
                buffer[1] = port;
                buffer[2] = #[verifier::truncate] (((ms >> 8) & 0xFF) as u8);
                buffer[3] = #[verifier::truncate] ((ms & 0xFF) as u8);
                proof {
                    assert(buffer@ =~= self.encoding() + old(buffer)@.skip(4));
                }
                let out = slice_subrange(buffer, 0, 4);
                proof {
                    assert(out@ =~= self.encoding());
                }
                Ok(out)
            }
            Self::SetCvFromFader { device_port, value } => {
                if buffer.len() < 4 {
                    return Err(SerializationError::BufferTooSmall);
                }
                buffer[0] = 0x06;
                buffer[1] = device_port;
                buffer[2] = #[verifier::truncate] (((value >> 8) & 0xFF) as u8);
                buffer[3] = #[verifier::truncate] ((value & 0xFF) as u8);
                proof {
                    assert(buffer@ =~= self.encoding() + old(buffer)@.skip(4));
                }
                let out = slice_subrange(buffer, 0, 4);
                proof {
                    assert(out@ =~= self.encoding());
                }
                Ok(out)
            }
            Self::SetTrState { port, state } => {
                if buffer.len() < 3 {
                    return Err(SerializationError::BufferTooSmall);
                }
                buffer[0] = 0x10;
                buffer[1] = port;
                buffer[2] = if state { 1 } else { 0 };
                proof {
                    assert(buffer@ =~= self.encoding() + old(buffer)@.skip(3));
                }
                let out = slice_subrange(buffer, 0, 3);
                proof {
                    assert(out@ =~= self.encoding());
                }
                Ok(out)
            }
            Self::SetTrToggle { port } => {
                if buffer.len() < 2 {
                    return Err(SerializationError::BufferTooSmall);
                }
                buffer[0] = 0x11;
                buffer[1] = port;
                proof {
                    assert(buffer@ =~= self.encoding() + old(buffer)@.skip(2));
                }
                let out = slice_subrange(buffer, 0, 2);
                proof {
                    assert(out@ =~= self.encoding());
                }
                Ok(out)
            }
            Self::SetTrPulse { port } => {
                if buffer.len() < 2 {
                    return Err(SerializationError::BufferTooSmall);
                }
                buffer[0] = 0x12;
                buffer[1] = port;
                proof {
                    assert(buffer@ =~= self.encoding() + old(buffer)@.skip(2));
                }
                let out = slice_subrange(buffer, 0, 2);
                proof {
                    assert(out@ =~= self.encoding());
                }
                Ok(out)
            }
            Self::SetTrPulseDuration { port, ms } => {
                if buffer.len() < 4 {
                    return Err(SerializationError::BufferTooSmall);
                }
                buffer[0] = 0x13;
                buffer[1] = port;
                buffer[2] = #[verifier::truncate] (((ms >> 8) & 0xFF) as u8);
                buffer[3] = #[verifier::truncate] ((ms & 0xFF) as u8);
                proof {
                    assert(buffer@ =~= self.encoding() + old(buffer)@.skip(4));
                }
                let out = slice_subrange(buffer, 0, 4);
                proof {
                    assert(out@ =~= self.encoding());
                }
                Ok(out)
            }
            Self::LoadPreset { preset } => {
                if buffer.len() < 2 {
                    return Err(SerializationError::BufferTooSmall);
                }
                buffer[0] = 0x20;
                buffer[1] = preset;
                proof {
                    assert(buffer@ =~= self.encoding() + old(buffer)@.skip(2));
                }
                let out = slice_subrange(buffer, 0, 2);
                proof {
                    assert(out@ =~= self.encoding());
                }
                Ok(out)
            }
            Self::SavePreset { preset } => {
                if buffer.len() < 2 {
                    return Err(SerializationError::BufferTooSmall);
                }
                buffer[0] = 0x21;
                buffer[1] = preset;
                proof {
                    assert(buffer@ =~= self.encoding() + old(buffer)@.skip(2));
                }
                let out = slice_subrange(buffer, 0, 2);
                proof {
                    assert(out@ =~= self.encoding());
                }
                Ok(out)
            }
            Self::KriaSetStep { track, step, state } => {
                if buffer.len() < 4 {
                    return Err(SerializationError::BufferTooSmall);
                }
                buffer[0] = 0x30;
                buffer[1] = track;
                buffer[2] = step;
                buffer[3] = state;
                proof {
                    assert(buffer@ =~= self.encoding() + old(buffer)@.skip(4));
                }
                let out = slice_subrange(buffer, 0, 4);
                proof {
                    assert(out@ =~= self.encoding());
                }
                Ok(out)
            }
        }
    }
}

} // verus!
