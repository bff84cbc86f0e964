use fm_synth::midi::{key_to_freq, parse_midi};
use fm_synth::voice::SynthInputEvent;

#[test]
fn note_on_status_maps_to_key_down() {
    let event = parse_midi(&[0x90, 69, 100]);
    assert_eq!(event, Some(SynthInputEvent::KeyDown { key: 69, freq: 440_000_000 }));
    // The status nibble decides; the channel bits do not matter.
    let event = parse_midi(&[0x95, 69, 1]);
    assert_eq!(event, Some(SynthInputEvent::KeyDown { key: 69, freq: 440_000_000 }));
}

#[test]
fn note_off_status_maps_to_key_up() {
    assert_eq!(parse_midi(&[0x80, 69, 0]), Some(SynthInputEvent::KeyUp { key: 69 }));
    assert_eq!(parse_midi(&[0x8F, 12, 0]), Some(SynthInputEvent::KeyUp { key: 12 }));
}

#[test]
fn other_status_bytes_are_ignored() {
    assert_eq!(parse_midi(&[0xB0, 1, 1]), None);
    assert_eq!(parse_midi(&[0xE0, 0, 64]), None);
    assert_eq!(parse_midi(&[0x70, 69, 1]), None);
}

#[test]
fn short_messages_are_ignored() {
    assert_eq!(parse_midi(&[]), None);
    assert_eq!(parse_midi(&[0x90]), None);
}

#[test]
fn equal_temperament_reference_points() {
    // A4 = key 69 = 440 Hz exactly; octaves double and halve exactly.
    assert_eq!(key_to_freq(69), 440_000_000);
    assert_eq!(key_to_freq(81), 880_000_000);
    assert_eq!(key_to_freq(57), 220_000_000);
    assert_eq!(key_to_freq(93), 1_760_000_000);
}

#[test]
fn middle_c_frequency() {
    // Key 60: 440 * 2^(-9/12) = 261.625565 Hz, in micro-hertz with the
    // ratio-table rounding.
    assert_eq!(key_to_freq(60), 261_625_565);
}

#[test]
fn lowest_key_is_still_positive() {
    // Key 0: 440 * 2^(-69/12) = 8.1757989 Hz.
    let f = key_to_freq(0);
    assert!(f > 8_175_000 && f < 8_176_000);
}
