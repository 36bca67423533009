use std::sync::mpsc;

use neothesia_logic::midi::MidiMessage;
use neothesia_logic::pocket_teto::{
    note_on_fields, still_playing, NotePlayback, PocketTetoEngine, PocketTetoOutputConnection,
};

#[test]
fn syllables_play_round_robin() {
    let mut engine = PocketTetoEngine::new(69, 3);
    assert_eq!(engine.syllable_count(), 3);
    let mut played = Vec::new();
    for _ in 0..7 {
        played.push(engine.on_note_on(69, 100).unwrap().syllable_index);
    }
    assert_eq!(played, vec![0, 1, 2, 0, 1, 2, 0]);
    assert_eq!(engine.current_index(), 1);
}

#[test]
fn pitch_shift_is_relative_to_base_note() {
    let mut engine = PocketTetoEngine::new(69, 2);
    assert_eq!(
        engine.on_note_on(81, 64),
        Some(NotePlayback { syllable_index: 0, semitones: 12, velocity: 64, generation: 0 })
    );
    assert_eq!(
        engine.on_note_on(57, 127),
        Some(NotePlayback { syllable_index: 1, semitones: -12, velocity: 127, generation: 0 })
    );
    assert_eq!(engine.on_note_on(0, 1).unwrap().semitones, -69);
    assert_eq!(engine.on_note_on(127, 1).unwrap().semitones, 58);
}

#[test]
fn without_syllables_nothing_plays() {
    let mut engine = PocketTetoEngine::new(69, 0);
    assert_eq!(engine.on_note_on(60, 100), None);
    assert_eq!(engine.current_index(), 0);
    assert_eq!(engine.syllable_count(), 0);
    engine.stop_all();
}

#[test]
fn only_note_on_reaches_the_engine() {
    assert_eq!(note_on_fields(MidiMessage::NoteOn { key: 60, vel: 90 }), Some((60, 90)));
    assert_eq!(note_on_fields(MidiMessage::NoteOff { key: 60, vel: 0 }), None);
    assert_eq!(note_on_fields(MidiMessage::ProgramChange { program: 3 }), None);
}

#[test]
fn connection_forwards_note_ons() {
    let (sender, receiver) = mpsc::channel();
    let connection = PocketTetoOutputConnection::new(sender);
    assert_eq!(connection.midi_event(3, MidiMessage::NoteOn { key: 72, vel: 33 }), Some((72, 33)));
    assert_eq!(connection.midi_event(0, MidiMessage::NoteOff { key: 72, vel: 0 }), None);
    assert_eq!(
        connection.midi_event(0, MidiMessage::Controller { controller: 64, value: 127 }),
        None
    );
    let copy = connection.clone();
    assert_eq!(copy.midi_event(0, MidiMessage::NoteOn { key: 60, vel: 1 }), Some((60, 1)));
    connection.stop_all();
    drop(connection);
    drop(copy);
    let received: Vec<(u8, u8)> = receiver.iter().collect();
    assert_eq!(received, vec![(72, 33), (60, 1)]);
}

#[test]
fn stop_all_ends_playing_notes() {
    let mut engine = PocketTetoEngine::new(69, 2);
    let first = engine.on_note_on(60, 100).unwrap();
    assert!(engine.is_playing(&first));
    assert!(still_playing(engine.generation(), &first));
    engine.stop_all();
    assert!(!engine.is_playing(&first));
    assert!(!still_playing(engine.generation(), &first));
    assert_eq!(engine.current_index(), 1);
    let second = engine.on_note_on(62, 100).unwrap();
    assert_eq!(second.syllable_index, 1);
    assert!(engine.is_playing(&second));
    assert!(!engine.is_playing(&first));
}
