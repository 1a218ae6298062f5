use clack::events::Event;
use clack::events::EventData;
use clack::events::EventType;
use clack::events::MidiEvent;
use clack::events::MidiSysexEvent;
use clack::events::NoteEvent;
use clack::events::NoteExpressionEvent;
use clack::events::NoteMaskEvent;
use clack::events::ParamModEvent;
use clack::events::ParamValueEvent;
use clack::events::RawEvent;
use clack::events::TransportEvent;
use clack::events::EVENT_TAG_NOTE_ON;

#[test]
fn note_on_round_trip_at_time_100() {
    let note = NoteEvent {
        port_index: 0,
        channel: 0,
        key: 60,
        note_id: -1,
        velocity_bits: (1.0f64).to_bits(),
    };
    let event = Event::new(100, EventType::NoteOn(note));
    assert_eq!(event.time(), 100);
    match event.event() {
        Some(EventType::NoteOn(decoded)) => {
            assert_eq!(decoded.key, 60);
            assert_eq!(f64::from_bits(decoded.velocity_bits), 1.0);
            assert_eq!(decoded, note);
        }
        _ => panic!("expected a note-on variant"),
    }
}

#[test]
fn note_off_round_trip() {
    let note = NoteEvent {
        port_index: 1,
        channel: 3,
        key: 64,
        note_id: 7,
        velocity_bits: (0.5f64).to_bits(),
    };
    let event = Event::new(8, EventType::NoteOff(note));
    assert_eq!(event.time(), 8);
    match event.event() {
        Some(EventType::NoteOff(decoded)) => assert_eq!(decoded, note),
        _ => panic!("expected a note-off variant"),
    }
}

#[test]
fn note_end_round_trip() {
    let note = NoteEvent {
        port_index: 2,
        channel: 15,
        key: 0,
        note_id: 0,
        velocity_bits: 0,
    };
    let event = Event::new(0, EventType::NoteEnd(note));
    match event.event() {
        Some(EventType::NoteEnd(decoded)) => assert_eq!(decoded, note),
        _ => panic!("expected a note-end variant"),
    }
}

#[test]
fn note_choke_round_trip() {
    let note = NoteEvent {
        port_index: -1,
        channel: -1,
        key: 127,
        note_id: 42,
        velocity_bits: u64::MAX,
    };
    let event = Event::new(u32::MAX, EventType::NoteChoke(note));
    assert_eq!(event.time(), u32::MAX);
    match event.event() {
        Some(EventType::NoteChoke(decoded)) => assert_eq!(decoded, note),
        _ => panic!("expected a note-choke variant"),
    }
}

#[test]
fn note_expression_round_trip() {
    let expression = NoteExpressionEvent {
        expression_kind: 2,
        port_index: 0,
        channel: 1,
        key: 61,
        note_id: 9,
        value_bits: (0.25f64).to_bits(),
    };
    let event = Event::new(12, EventType::NoteExpression(expression));
    match event.event() {
        Some(EventType::NoteExpression(decoded)) => assert_eq!(decoded, expression),
        _ => panic!("expected a note-expression variant"),
    }
}

#[test]
fn note_mask_round_trip() {
    let mask = NoteMaskEvent { port_index: 0, note_mask: 0b1010_1010_1010 };
    let event = Event::new(5, EventType::NoteMask(mask));
    match event.event() {
        Some(EventType::NoteMask(decoded)) => assert_eq!(decoded, mask),
        _ => panic!("expected a note-mask variant"),
    }
}

#[test]
fn param_value_round_trip() {
    let param = ParamValueEvent { param_id: 17, note_id: -1, value_bits: (0.75f64).to_bits() };
    let event = Event::new(33, EventType::ParamValue(param));
    match event.event() {
        Some(EventType::ParamValue(decoded)) => assert_eq!(decoded, param),
        _ => panic!("expected a parameter-value variant"),
    }
}

#[test]
fn param_mod_round_trip() {
    let param = ParamModEvent { param_id: 6, note_id: 4, amount_bits: (-0.5f64).to_bits() };
    let event = Event::new(34, EventType::ParamMod(param));
    match event.event() {
        Some(EventType::ParamMod(decoded)) => assert_eq!(decoded, param),
        _ => panic!("expected a parameter-modulation variant"),
    }
}

#[test]
fn transport_round_trip() {
    let transport = TransportEvent {
        flags: 3,
        song_pos_beats_bits: (16.0f64).to_bits(),
        tempo_bits: (120.0f64).to_bits(),
    };
    let event = Event::new(0, EventType::Transport(transport));
    match event.event() {
        Some(EventType::Transport(decoded)) => assert_eq!(decoded, transport),
        _ => panic!("expected a transport variant"),
    }
}

#[test]
fn midi_round_trip() {
    let midi = MidiEvent { port_index: 0, data0: 0x90, data1: 60, data2: 100 };
    let event = Event::new(2, EventType::Midi(midi));
    match event.event() {
        Some(EventType::Midi(decoded)) => assert_eq!(decoded, midi),
        _ => panic!("expected a raw MIDI variant"),
    }
}

#[test]
fn midi_sysex_round_trip_borrows_the_buffer() {
    let buffer: Vec<u8> = vec![0xF0, 0x7E, 0x7F, 0x09, 0x01, 0xF7];
    let sysex = MidiSysexEvent { port_index: 1, buffer: &buffer };
    let event = Event::new(44, EventType::MidiSysex(sysex));
    match event.event() {
        Some(EventType::MidiSysex(decoded)) => {
            assert_eq!(decoded.port_index, 1);
            assert_eq!(decoded.buffer, &buffer[..]);
        }
        _ => panic!("expected a system-exclusive variant"),
    }
}

#[test]
fn unknown_discriminant_decodes_to_absent() {
    let note = NoteEvent { port_index: 0, channel: 0, key: 60, note_id: -1, velocity_bits: 0 };
    let raw = RawEvent { event_type: 9999, data: EventData::Note(note), time: 7 };
    let event = Event::from_raw(&raw);
    assert!(event.event().is_none());
    assert_eq!(event.time(), 7);
}

#[test]
fn mismatched_payload_shape_decodes_to_absent() {
    let midi = MidiEvent { port_index: 0, data0: 0x80, data1: 1, data2: 2 };
    let raw = RawEvent { event_type: EVENT_TAG_NOTE_ON, data: EventData::Midi(midi), time: 0 };
    assert!(Event::from_raw(&raw).event().is_none());
}

#[test]
fn from_raw_round_trips_through_as_raw() {
    let note = NoteEvent { port_index: 0, channel: 2, key: 72, note_id: 5, velocity_bits: 1 };
    let event = Event::new(9, EventType::NoteOn(note));
    let raw = event.as_raw();
    let again = Event::from_raw(&raw);
    assert_eq!(again.time(), 9);
    assert!(again == event);
}

#[test]
fn as_raw_mut_mutates_the_record_in_place() {
    let note = NoteEvent { port_index: 0, channel: 0, key: 60, note_id: -1, velocity_bits: 0 };
    let mut event = Event::new(4, EventType::NoteOn(note));
    event.as_raw_mut().time = 99;
    assert_eq!(event.time(), 99);
    assert!(matches!(event.event(), Some(EventType::NoteOn(_))));
}

#[test]
fn decode_of_tag_and_payload_matches_event_decode() {
    let note = NoteEvent { port_index: 0, channel: 0, key: 60, note_id: -1, velocity_bits: 0 };
    assert!(matches!(
        EventType::from_raw(EVENT_TAG_NOTE_ON, EventData::Note(note)),
        Some(EventType::NoteOn(_))
    ));
    assert!(EventType::from_raw(11, EventData::Note(note)).is_none());
}

#[test]
fn encoding_writes_distinct_tags() {
    let note = NoteEvent { port_index: 0, channel: 0, key: 0, note_id: 0, velocity_bits: 0 };
    let mask = NoteMaskEvent { port_index: 0, note_mask: 0 };
    let (tag_on, _) = EventType::NoteOn(note).into_raw();
    let (tag_off, _) = EventType::NoteOff(note).into_raw();
    let (tag_mask, _) = EventType::NoteMask(mask).into_raw();
    assert_ne!(tag_on, tag_off);
    assert_ne!(tag_on, tag_mask);
    assert_ne!(tag_off, tag_mask);
}
