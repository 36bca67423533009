use std::time::Duration;

use neothesia_logic::midi::{Format, MetaMessage, MidiMessage, Timing, TrackEventKind};
use neothesia_logic::recorder::{
    duration_to_ticks, to_smf, FreeplayRecorder, RecordedMidiEvent, RecorderError, RecorderStatus,
};

#[test]
fn restarting_recording_discards_previous_take_and_resets_event_count() {
    let mut recorder = FreeplayRecorder::default();

    recorder.start();
    recorder.push_event(0, MidiMessage::NoteOn { key: 60, vel: 100 });

    assert!(recorder.stop().is_ok());

    recorder.start();

    assert!(recorder.is_recording());

    let error = recorder.stop().expect_err("Empty");
    assert_eq!(error, RecorderError::NoNotesFound);
}

#[test]
fn pedal_only_recording_is_rejected_for_preview_song() {
    let mut recorder = FreeplayRecorder::default();

    recorder.start();
    recorder.push_event(0, MidiMessage::Controller { controller: 64, value: 127 });
    recorder.push_event(0, MidiMessage::Controller { controller: 64, value: 0 });

    let error = recorder
        .stop()
        .expect_err("pedal-only recordings should not create preview songs");
    assert_eq!(error, RecorderError::NoNotesFound);
}

#[test]
fn note_off_only_recording_is_rejected_for_preview_song() {
    let mut recorder = FreeplayRecorder::default();

    recorder.start();
    recorder.push_event(0, MidiMessage::NoteOff { key: 60, vel: 0 });

    let error = recorder
        .stop()
        .expect_err("note-off-only recordings should not create preview songs");
    assert_eq!(error, RecorderError::NoNotesFound);
}

fn event(millis: u64, channel: u8, message: MidiMessage) -> RecordedMidiEvent {
    RecordedMidiEvent { timestamp: Duration::from_millis(millis), channel, message }
}

#[test]
fn ticks_are_960_per_second() {
    assert_eq!(duration_to_ticks(Duration::ZERO), 0);
    assert_eq!(duration_to_ticks(Duration::from_secs(1)), 960);
    assert_eq!(duration_to_ticks(Duration::from_millis(500)), 480);
    assert_eq!(duration_to_ticks(Duration::from_secs(10)), 9600);
}

#[test]
fn ticks_round_to_nearest() {
    // 1 ms is 0.96 ticks, 0.4 ms is 0.384 ticks.
    assert_eq!(duration_to_ticks(Duration::from_millis(1)), 1);
    assert_eq!(duration_to_ticks(Duration::from_micros(400)), 0);
    // 1.5625 ms is 1.5 ticks: halves go up.
    assert_eq!(duration_to_ticks(Duration::from_nanos(1_562_500)), 2);
}

#[test]
fn ticks_saturate_at_u32_max() {
    assert_eq!(duration_to_ticks(Duration::from_secs(10_000_000)), u32::MAX);
    assert_eq!(duration_to_ticks(Duration::MAX), u32::MAX);
}

#[test]
fn take_without_note_on_is_refused() {
    assert_eq!(to_smf(&[]).unwrap_err(), RecorderError::NoNotesFound);
    let events = [event(0, 0, MidiMessage::NoteOff { key: 60, vel: 0 })];
    assert_eq!(to_smf(&events).unwrap_err(), RecorderError::NoNotesFound);
}

#[test]
fn take_becomes_single_track_file() {
    let events = [
        event(0, 0, MidiMessage::NoteOn { key: 60, vel: 100 }),
        event(500, 0, MidiMessage::NoteOff { key: 60, vel: 0 }),
        event(1500, 1, MidiMessage::Controller { controller: 64, value: 127 }),
    ];
    let smf = to_smf(&events).unwrap();
    assert_eq!(smf.header.format, Format::SingleTrack);
    assert_eq!(smf.header.timing, Timing::Metrical(480));
    assert_eq!(smf.tracks.len(), 1);
    let track = &smf.tracks[0];
    assert_eq!(track.len(), 6);
    assert_eq!(track[0].delta, 0);
    assert_eq!(track[0].kind, TrackEventKind::Meta(MetaMessage::Tempo(500_000)));
    assert_eq!(track[1].delta, 0);
    assert_eq!(track[1].kind, TrackEventKind::Meta(MetaMessage::TimeSignature(4, 2, 24, 8)));
    assert_eq!(track[2].delta, 0);
    assert_eq!(
        track[2].kind,
        TrackEventKind::Midi { channel: 0, message: MidiMessage::NoteOn { key: 60, vel: 100 } }
    );
    assert_eq!(track[3].delta, 480);
    assert_eq!(track[4].delta, 960);
    assert_eq!(
        track[4].kind,
        TrackEventKind::Midi {
            channel: 1,
            message: MidiMessage::Controller { controller: 64, value: 127 }
        }
    );
    assert_eq!(track[5].delta, 1);
    assert_eq!(track[5].kind, TrackEventKind::Meta(MetaMessage::EndOfTrack));
}

#[test]
fn deltas_add_up_to_event_times() {
    let events = [
        event(100, 0, MidiMessage::NoteOn { key: 60, vel: 100 }),
        event(350, 0, MidiMessage::NoteOn { key: 64, vel: 100 }),
        event(1000, 0, MidiMessage::NoteOff { key: 60, vel: 0 }),
        event(2000, 0, MidiMessage::NoteOff { key: 64, vel: 0 }),
    ];
    let smf = to_smf(&events).unwrap();
    let track = &smf.tracks[0];
    let mut total: u32 = 0;
    for (i, e) in events.iter().enumerate() {
        total += track[i + 2].delta;
        assert_eq!(total, duration_to_ticks(e.timestamp));
    }
}

#[test]
fn clock_going_backwards_gives_zero_delta() {
    let events = [
        event(1000, 0, MidiMessage::NoteOn { key: 60, vel: 100 }),
        event(500, 0, MidiMessage::NoteOff { key: 60, vel: 0 }),
        event(1500, 0, MidiMessage::NoteOn { key: 62, vel: 90 }),
    ];
    let smf = to_smf(&events).unwrap();
    let track = &smf.tracks[0];
    assert_eq!(track[2].delta, 960);
    assert_eq!(track[3].delta, 0);
    assert_eq!(track[4].delta, 960);
}

#[test]
fn channel_is_stored_in_four_bits() {
    let events = [event(0, 17, MidiMessage::NoteOn { key: 60, vel: 100 })];
    let smf = to_smf(&events).unwrap();
    assert_eq!(
        smf.tracks[0][2].kind,
        TrackEventKind::Midi { channel: 1, message: MidiMessage::NoteOn { key: 60, vel: 100 } }
    );
}

#[test]
fn delta_is_stored_in_28_bits() {
    // 300 000 s is 288 000 000 ticks, above the 28-bit limit of 268 435 455.
    let events = [RecordedMidiEvent {
        timestamp: Duration::from_secs(300_000),
        channel: 0,
        message: MidiMessage::NoteOn { key: 60, vel: 100 },
    }];
    let smf = to_smf(&events).unwrap();
    assert_eq!(smf.tracks[0][2].delta, 288_000_000 & 0x0fff_ffff);
}

#[test]
fn stop_releases_held_notes_in_order() {
    let mut recorder = FreeplayRecorder::default();
    recorder.start();
    recorder.push_event(1, MidiMessage::NoteOn { key: 64, vel: 80 });
    recorder.push_event(0, MidiMessage::NoteOn { key: 67, vel: 80 });
    recorder.push_event(0, MidiMessage::NoteOn { key: 60, vel: 80 });
    recorder.push_event(0, MidiMessage::NoteOn { key: 62, vel: 80 });
    recorder.push_event(0, MidiMessage::NoteOff { key: 62, vel: 0 });
    let smf = recorder.stop().unwrap().clone();
    let track = &smf.tracks[0];
    // prelude, five played events, three closing note-offs, end of track
    assert_eq!(track.len(), 2 + 5 + 3 + 1);
    let closing: Vec<TrackEventKind> = track[7..10].iter().map(|e| e.kind).collect();
    assert_eq!(
        closing,
        vec![
            TrackEventKind::Midi { channel: 0, message: MidiMessage::NoteOff { key: 60, vel: 0 } },
            TrackEventKind::Midi { channel: 0, message: MidiMessage::NoteOff { key: 67, vel: 0 } },
            TrackEventKind::Midi { channel: 1, message: MidiMessage::NoteOff { key: 64, vel: 0 } },
        ]
    );
    assert!(!recorder.is_recording());
    assert!(recorder.as_smf().is_ok());
}

#[test]
fn repeated_note_on_is_released_once() {
    let mut recorder = FreeplayRecorder::default();
    recorder.start();
    recorder.push_event(0, MidiMessage::NoteOn { key: 60, vel: 80 });
    recorder.push_event(0, MidiMessage::NoteOn { key: 60, vel: 90 });
    let smf = recorder.stop().unwrap().clone();
    assert_eq!(smf.tracks[0].len(), 2 + 2 + 1 + 1);
}

#[test]
fn events_outside_a_recording_are_ignored() {
    let mut recorder = FreeplayRecorder::default();
    recorder.push_event(0, MidiMessage::NoteOn { key: 60, vel: 80 });
    assert!(!recorder.is_recording());
    assert_eq!(recorder.stop().unwrap_err(), RecorderError::NoNotesFound);
    assert_eq!(recorder.as_smf().unwrap_err(), RecorderError::NoNotesFound);
    assert_eq!(recorder.duration(), Duration::ZERO);
}

#[test]
fn stopping_twice_discards_the_take() {
    let mut recorder = FreeplayRecorder::default();
    recorder.start();
    recorder.push_event(0, MidiMessage::NoteOn { key: 60, vel: 80 });
    assert!(recorder.stop().is_ok());
    assert!(recorder.as_smf().is_ok());
    assert_eq!(recorder.stop().unwrap_err(), RecorderError::NoNotesFound);
    assert_eq!(recorder.as_smf().unwrap_err(), RecorderError::NoNotesFound);
}

#[test]
fn take_keeps_its_duration() {
    let mut recorder = FreeplayRecorder::default();
    recorder.start();
    recorder.push_event(0, MidiMessage::NoteOn { key: 60, vel: 80 });
    let waiting = std::time::Instant::now();
    while waiting.elapsed() < Duration::from_millis(5) {}
    assert!(recorder.stop().is_ok());
    let d = recorder.duration();
    assert!(d >= Duration::from_millis(5));
    assert_eq!(recorder.duration(), d);
}

#[test]
fn error_messages() {
    assert_eq!(RecorderError::NoNotesFound.message(), "No note events recorded");
    assert_eq!(RecorderError::Write.message(), "Failed to write MIDI file");
    assert_eq!(RecorderError::MidiFileParse("bad header".to_string()).message(), "bad header");
    assert!(matches!(RecorderStatus::default(), RecorderStatus::Idle));
}

#[test]
fn start_discards_the_take() {
    let mut recorder = FreeplayRecorder::default();
    recorder.start();
    recorder.push_event(0, MidiMessage::NoteOn { key: 60, vel: 80 });
    assert!(recorder.stop().is_ok());
    assert!(!recorder.is_recording());
    recorder.start();
    assert!(recorder.is_recording());
    assert_eq!(recorder.as_smf().unwrap_err(), RecorderError::NoNotesFound);
}

#[test]
fn events_are_stamped_with_time_since_start() {
    let mut recorder = FreeplayRecorder::default();
    recorder.start();
    let waiting = std::time::Instant::now();
    while waiting.elapsed() < Duration::from_millis(20) {}
    recorder.push_event(0, MidiMessage::NoteOn { key: 60, vel: 80 });
    assert!(recorder.duration() >= Duration::from_millis(20));
    let smf = recorder.stop().unwrap().clone();
    // At least 20 ms, that is at least 19 ticks, after the start.
    assert!(smf.tracks[0][2].delta >= 19);
    assert!(recorder.duration() >= Duration::from_millis(20));
}
