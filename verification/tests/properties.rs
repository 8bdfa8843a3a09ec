//! Cross-cutting behaviour: determinism, big-endian field order, declared
//! maxima, and device addresses.

use mii::ansible;
use mii::er301;
use mii::just_friends;
use mii::telexo;
use mii::Command;

fn encoded<C: Command>(c: C) -> Vec<u8> {
    let mut buffer = [0u8; 8];
    c.to_bytes(&mut buffer).unwrap().to_vec()
}

#[test]
fn encoding_is_deterministic() {
    let c = just_friends::Commands::PlayNote { output: 3, pitch: -12345, volume: 321 };
    let mut first = [0u8; 6];
    let mut second = [0xFFu8; 6];
    let a = c.to_bytes(&mut first).unwrap().to_vec();
    let b = c.to_bytes(&mut second).unwrap().to_vec();
    assert_eq!(a, b);
}

#[test]
fn unsigned_fields_are_big_endian() {
    for &ms in &[0u16, 1, 255, 256, 0x1234, 0xFF00, u16::MAX] {
        let bytes = encoded(er301::Commands::SetCvSlew { port: 0, ms });
        assert_eq!(bytes[2], (ms >> 8) as u8);
        assert_eq!(bytes[3], (ms & 0xFF) as u8);
    }
}

#[test]
fn signed_fields_are_big_endian_twos_complement() {
    for &value in &[0i16, 1, -1, 255, -256, 8192, i16::MIN, i16::MAX] {
        let bits = value as u16;
        let bytes = encoded(er301::Commands::SetCv { port: 0, value });
        assert_eq!(bytes[2], (bits >> 8) as u8);
        assert_eq!(bytes[3], (bits & 0xFF) as u8);
        assert_eq!(&bytes[2..4], value.to_be_bytes().as_slice());
    }
}

#[test]
fn declared_maxima() {
    assert_eq!(ansible::Commands::max_length(), 4);
    assert_eq!(er301::Commands::max_length(), 4);
    assert_eq!(just_friends::Commands::max_length(), 6);
    assert_eq!(telexo::Commands::max_length(), 4);
    assert_eq!(ansible::MAX_LENGTH, 4);
    assert_eq!(er301::MAX_LENGTH, 4);
    assert_eq!(just_friends::MAX_LENGTH, 6);
    assert_eq!(telexo::MAX_LENGTH, 4);
}

#[test]
fn no_variant_exceeds_declared_maximum() {
    let ansible_all = [
        encoded(ansible::Commands::SetCv { port: 0, value: 0 }),
        encoded(ansible::Commands::SetCvSlew { port: 0, ms: 0 }),
        encoded(ansible::Commands::SetCvFromFader { device_port: 0, value: 0 }),
        encoded(ansible::Commands::SetTrState { port: 0, state: false }),
        encoded(ansible::Commands::SetTrToggle { port: 0 }),
        encoded(ansible::Commands::SetTrPulse { port: 0 }),
        encoded(ansible::Commands::SetTrPulseDuration { port: 0, ms: 0 }),
        encoded(ansible::Commands::LoadPreset { preset: 0 }),
        encoded(ansible::Commands::SavePreset { preset: 0 }),
        encoded(ansible::Commands::KriaSetStep { track: 0, step: 0, state: 0 }),
    ];
    for bytes in &ansible_all {
        assert!(bytes.len() <= ansible::MAX_LENGTH);
    }

    let er301_all = [
        encoded(er301::Commands::SetGate { port: 0, state: false }),
        encoded(er301::Commands::SetCv { port: 0, value: 0 }),
        encoded(er301::Commands::SetCvSlew { port: 0, ms: 0 }),
    ];
    for bytes in &er301_all {
        assert!(bytes.len() <= er301::MAX_LENGTH);
    }

    let just_friends_all = [
        encoded(just_friends::Commands::SetGate { output: 0, state: false }),
        encoded(just_friends::Commands::PlayNote { output: 0, pitch: 0, volume: 0 }),
    ];
    for bytes in &just_friends_all {
        assert!(bytes.len() <= just_friends::MAX_LENGTH);
    }

    let telexo_all = [
        encoded(telexo::Commands::SetGate { port: 0, state: false }),
        encoded(telexo::Commands::SetCv { port: 0, value: 0 }),
        encoded(telexo::Commands::SetCvSlew { port: 0, ms: 0 }),
        encoded(telexo::Commands::SetOscPitch { port: 0, pitch: 0 }),
        encoded(telexo::Commands::SetOscWaveform { port: 0, waveform: 0 }),
        encoded(telexo::Commands::SetEnvelopeMode { port: 0, enabled: false }),
        encoded(telexo::Commands::SetEnvelopeState { port: 0, on: false }),
    ];
    for bytes in &telexo_all {
        assert!(bytes.len() <= telexo::MAX_LENGTH);
    }
}

#[test]
fn opcodes_are_distinct_within_each_vocabulary() {
    let ansible_opcodes = [
        encoded(ansible::Commands::SetCv { port: 0, value: 0 })[0],
        encoded(ansible::Commands::SetCvSlew { port: 0, ms: 0 })[0],
        encoded(ansible::Commands::SetCvFromFader { device_port: 0, value: 0 })[0],
        encoded(ansible::Commands::SetTrState { port: 0, state: false })[0],
        encoded(ansible::Commands::SetTrToggle { port: 0 })[0],
        encoded(ansible::Commands::SetTrPulse { port: 0 })[0],
        encoded(ansible::Commands::SetTrPulseDuration { port: 0, ms: 0 })[0],
        encoded(ansible::Commands::LoadPreset { preset: 0 })[0],
        encoded(ansible::Commands::SavePreset { preset: 0 })[0],
        encoded(ansible::Commands::KriaSetStep { track: 0, step: 0, state: 0 })[0],
    ];
    let er301_opcodes = [
        encoded(er301::Commands::SetGate { port: 0, state: false })[0],
        encoded(er301::Commands::SetCv { port: 0, value: 0 })[0],
        encoded(er301::Commands::SetCvSlew { port: 0, ms: 0 })[0],
    ];
    let just_friends_opcodes = [
        encoded(just_friends::Commands::SetGate { output: 0, state: false })[0],
        encoded(just_friends::Commands::PlayNote { output: 0, pitch: 0, volume: 0 })[0],
    ];
    let telexo_opcodes = [
        encoded(telexo::Commands::SetGate { port: 0, state: false })[0],
        encoded(telexo::Commands::SetCv { port: 0, value: 0 })[0],
        encoded(telexo::Commands::SetCvSlew { port: 0, ms: 0 })[0],
        encoded(telexo::Commands::SetOscPitch { port: 0, pitch: 0 })[0],
        encoded(telexo::Commands::SetOscWaveform { port: 0, waveform: 0 })[0],
        encoded(telexo::Commands::SetEnvelopeMode { port: 0, enabled: false })[0],
        encoded(telexo::Commands::SetEnvelopeState { port: 0, on: false })[0],
    ];
    for opcodes in [
        ansible_opcodes.as_slice(),
        er301_opcodes.as_slice(),
        just_friends_opcodes.as_slice(),
        telexo_opcodes.as_slice(),
    ] {
        for i in 0..opcodes.len() {
            for j in 0..opcodes.len() {
                if i != j {
                    assert_ne!(opcodes[i], opcodes[j]);
                }
            }
        }
    }
}

#[test]
fn opcode_does_not_vary_with_field_values() {
    let a = encoded(ansible::Commands::SetCv { port: 0, value: i16::MIN });
    let b = encoded(ansible::Commands::SetCv { port: 200, value: i16::MAX });
    assert_eq!(a[0], b[0]);
    assert_eq!(a[0], 0x01);
}

#[test]
fn device_addresses() {
    assert_eq!(ansible::ADDRESS, 0x20);
    assert_eq!(er301::ADDRESS, 0x31);
    assert_eq!(just_friends::ADDRESS, 0x70);
    assert_eq!(telexo::BASE_ADDRESS, 0x60);
    for unit in 0u8..8 {
        assert_eq!(telexo::address(unit), 0x60 + unit);
    }
}

#[test]
fn out_of_range_port_is_encoded_verbatim() {
    // Field-range validation is the caller's obligation: a port beyond the
    // device's physical count is encoded without error.
    let bytes = encoded(er301::Commands::SetCv { port: 200, value: 0 });
    assert_eq!(bytes, vec![0x11, 200, 0, 0]);
}
