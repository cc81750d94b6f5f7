use scrysynth::domain::HardwareSource;
use scrysynth::hardware::{
    midi_event_to_source, midi_port_id, parse_midi_message, parse_midi_port_id, MidiLearnEvent,
};

#[test]
fn parse_midi_cc_message() {
    let msg = [0xB3u8, 7, 100];
    let event = parse_midi_message(&msg).unwrap();
    assert_eq!(
        event,
        MidiLearnEvent::MidiCc {
            channel: 3,
            controller: 7,
            value: 100,
        }
    );
}

#[test]
fn parse_midi_note_on_message() {
    let msg = [0x90u8, 60, 127];
    let event = parse_midi_message(&msg).unwrap();
    assert_eq!(
        event,
        MidiLearnEvent::MidiNote {
            channel: 0,
            note: 60,
            velocity: 127,
        }
    );
}

#[test]
fn parse_midi_pitch_bend_message() {
    let msg = [0xE2u8, 0x00, 0x40];
    let event = parse_midi_message(&msg).unwrap();
    assert_eq!(
        event,
        MidiLearnEvent::MidiPitchBend {
            channel: 2,
            value: 0x2000,
        }
    );
}

#[test]
fn parse_empty_message_returns_none() {
    assert!(parse_midi_message(&[]).is_none());
}

#[test]
fn parse_unknown_status_returns_none() {
    assert!(parse_midi_message(&[0xF0, 0x00]).is_none());
}

#[test]
fn parse_truncated_cc_returns_none() {
    assert!(parse_midi_message(&[0xB0, 7]).is_none());
}

#[test]
fn midi_event_maps_to_its_source() {
    let cc = MidiLearnEvent::MidiCc { channel: 1, controller: 74, value: 3 };
    assert_eq!(midi_event_to_source(&cc), HardwareSource::MidiCc { channel: 1, controller: 74 });
    let bend = MidiLearnEvent::MidiPitchBend { channel: 5, value: 100 };
    assert_eq!(midi_event_to_source(&bend), HardwareSource::MidiPitchBend { channel: 5 });
}

#[test]
fn midi_port_ids_round_trip() {
    assert_eq!(midi_port_id(0), "midi-input-0");
    assert_eq!(midi_port_id(12), "midi-input-12");
    for index in [0usize, 1, 9, 10, 12345] {
        assert_eq!(parse_midi_port_id(&midi_port_id(index)), Some(index));
    }
    assert_eq!(parse_midi_port_id("midi-input-+7"), Some(7));
    assert_eq!(parse_midi_port_id("midi-input-"), None);
    assert_eq!(parse_midi_port_id("midi-input-x"), None);
    assert_eq!(parse_midi_port_id("other-3"), None);
    assert_eq!(parse_midi_port_id("midi-input-99999999999999999999999"), None);
}
