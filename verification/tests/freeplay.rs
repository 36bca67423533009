use neothesia_logic::freeplay::select_instrument;
use neothesia_logic::freeplay::{preview_bar_action, PreviewBarAction, PreviewBarControl};
use std::path::PathBuf;

use neothesia_logic::freeplay::{
    finish_record_click, finish_save_click, handle_record_click, handle_save_click,
    RecordClickAction,
};
use neothesia_logic::midi::MidiMessage;
use neothesia_logic::preview::{hidden_tracks, Preview, TrackVisibility};
use neothesia_logic::recorder::{FreeplayRecorder, RecorderError, RecorderStatus};

#[test]
fn record_button_starts_then_stops() {
    let mut recorder = FreeplayRecorder::default();
    let mut preview = Some(Preview::new());
    let mut status = RecorderStatus::Error(RecorderError::Write);

    assert_eq!(handle_record_click(&mut recorder, &mut preview, &mut status), RecordClickAction::Started);
    assert!(recorder.is_recording());
    assert!(preview.is_none());
    assert!(matches!(status, RecorderStatus::Idle));

    recorder.push_event(0, MidiMessage::NoteOn { key: 60, vel: 100 });
    assert_eq!(handle_record_click(&mut recorder, &mut preview, &mut status), RecordClickAction::LoadTake);
    assert!(recorder.as_smf().is_ok());
    assert!(matches!(status, RecorderStatus::Idle));

    finish_record_click(&recorder, &mut preview, &mut status, Ok(()));
    assert!(preview.as_ref().unwrap().is_paused());
    match status {
        RecorderStatus::RecordingFinished(d) => assert_eq!(d, recorder.duration()),
        other => panic!("unexpected status {:?}", other),
    }
}

#[test]
fn record_button_without_notes_reports_error() {
    let mut recorder = FreeplayRecorder::default();
    let mut preview = None;
    let mut status = RecorderStatus::Idle;
    handle_record_click(&mut recorder, &mut preview, &mut status);
    recorder.push_event(0, MidiMessage::NoteOff { key: 60, vel: 0 });
    assert_eq!(handle_record_click(&mut recorder, &mut preview, &mut status), RecordClickAction::Failed);
    assert!(!recorder.is_recording());
    assert!(matches!(status, RecorderStatus::Error(RecorderError::NoNotesFound)));
}

#[test]
fn unreadable_take_reports_the_message() {
    let recorder = FreeplayRecorder::default();
    let mut preview = None;
    let mut status = RecorderStatus::Idle;
    finish_record_click(&recorder, &mut preview, &mut status, Err("bad file".to_string()));
    assert!(preview.is_none());
    match status {
        RecorderStatus::Error(RecorderError::MidiFileParse(s)) => assert_eq!(s, "bad file"),
        other => panic!("unexpected status {:?}", other),
    }
}

#[test]
fn save_button() {
    let mut recorder = FreeplayRecorder::default();
    let mut status = RecorderStatus::Idle;
    assert!(!handle_save_click(&recorder, &mut status));
    assert!(matches!(status, RecorderStatus::Error(RecorderError::NoNotesFound)));

    recorder.start();
    recorder.push_event(0, MidiMessage::NoteOn { key: 60, vel: 100 });
    assert!(recorder.stop().is_ok());
    let mut status = RecorderStatus::Idle;
    assert!(handle_save_click(&recorder, &mut status));
    assert!(matches!(status, RecorderStatus::Idle));

    finish_save_click(&mut status, PathBuf::from("take.mid"), true);
    assert!(matches!(&status, RecorderStatus::Saved(p) if p == &PathBuf::from("take.mid")));
    finish_save_click(&mut status, PathBuf::from("take.mid"), false);
    assert!(matches!(status, RecorderStatus::Error(RecorderError::Write)));
}

#[test]
fn hidden_tracks_are_the_invisible_ones() {
    let tracks = [
        TrackVisibility { track_id: 0, visible: true },
        TrackVisibility { track_id: 3, visible: false },
        TrackVisibility { track_id: 1, visible: true },
        TrackVisibility { track_id: 7, visible: false },
    ];
    assert_eq!(hidden_tracks(&tracks), vec![3, 7]);
    assert_eq!(hidden_tracks(&[]), Vec::<usize>::new());
}

#[test]
fn preview_bar_controls() {
    assert_eq!(preview_bar_action(PreviewBarControl::PlayPause, true), Some(PreviewBarAction::TogglePlay));
    assert_eq!(preview_bar_action(PreviewBarControl::PlayPause, false), None);
    assert_eq!(preview_bar_action(PreviewBarControl::Save, true), Some(PreviewBarAction::Save));
    assert_eq!(preview_bar_action(PreviewBarControl::Save, false), None);
    assert_eq!(preview_bar_action(PreviewBarControl::ProgressBar, true), Some(PreviewBarAction::Seek));
    assert_eq!(preview_bar_action(PreviewBarControl::ProgressBar, false), None);
    assert_eq!(preview_bar_action(PreviewBarControl::Record, false), Some(PreviewBarAction::Record));
    assert_eq!(
        preview_bar_action(PreviewBarControl::Instruments, false),
        Some(PreviewBarAction::OpenInstrumentSelector)
    );
    assert_eq!(preview_bar_action(PreviewBarControl::Back, false), Some(PreviewBarAction::GoBack));
}

#[test]
fn selecting_an_instrument() {
    let mut programs = vec![0u8; 16];
    programs[3] = 9;
    assert_eq!(select_instrument(&mut programs, 40), (0, MidiMessage::ProgramChange { program: 40 }));
    assert_eq!(programs[0], 40);
    assert_eq!(programs[3], 9);
}
