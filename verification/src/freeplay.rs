//! The decisions behind the record and save buttons of free-play mode. The
//! application carries out what these functions ask for (resetting the
//! keyboard, reading the take as a song, the save dialog, writing the file)
//! and reports back the outcome.

use vstd::prelude::*;
use std::path::PathBuf;

use crate::midi::MidiMessage;
use crate::preview::Preview;
use crate::recorder::{has_note_on, FreeplayRecorder, RecorderError, RecorderStatus};

verus! {

/// What the application does after a click on the record button.
#[derive(Clone, Copy, PartialEq, Eq, Debug, Structural)]
pub enum RecordClickAction {
    /// A new recording started: clear the keyboard's song configuration and
    /// its pressed notes.
    Started,
    /// The recording stopped with a take: read the take (`as_smf`) as a
    /// song, and report the outcome with `finish_record_click`.
    LoadTake,
    /// The recording stopped without a take; the status holds the error.
    Failed,
}

/// A click on the record button. While recording, it stops the recording:
/// with a take the application reads it next, without one the status
/// becomes the error. Otherwise it drops the preview, clears the status and
/// starts a new recording.
pub fn handle_record_click(
    recorder: &mut FreeplayRecorder,
    preview: &mut Option<Preview>,
    status: &mut RecorderStatus,
) -> (r: RecordClickAction)
    ensures
        final(recorder).wf(),
        !old(recorder).recording() ==> {
            &&& r == RecordClickAction::Started
            &&& final(recorder).recording()
            &&& final(recorder).events() == Seq::<crate::recorder::RecordedMidiEvent>::empty()
            &&& (*final(preview)) is None
            &&& (*final(status)) is Idle
        },
        old(recorder).recording() && has_note_on(old(recorder).events()) ==> {
            &&& r == RecordClickAction::LoadTake
            &&& final(recorder).has_take()
            &&& *final(preview) == *old(preview)
            &&& *final(status) == *old(status)
        },
        old(recorder).recording() && !has_note_on(old(recorder).events()) ==> {
            &&& r == RecordClickAction::Failed
            &&& final(recorder).is_idle()
            &&& *final(preview) == *old(preview)
            &&& (*final(status)) matches RecorderStatus::Error(e) && e is NoNotesFound
        },
{
    proof {
        use_type_invariant(&*recorder);
    }
    if recorder.is_recording() {
        let stopped = recorder.stop();
        match stopped {
            Ok(_) => RecordClickAction::LoadTake,
            Err(e) => {
                *status = RecorderStatus::Error(e);
                RecordClickAction::Failed
            },
        }
    } else {
        *preview = None;
        *status = RecorderStatus::Idle;
        recorder.start();
        RecordClickAction::Started
    }
}

/// Reports whether the take could be read as a song. When it could, the
/// preview of the take replaces any earlier one and the status gives the
/// length of the take; otherwise the status gives the reader's message.
pub fn finish_record_click(
    recorder: &FreeplayRecorder,
    preview: &mut Option<Preview>,
    status: &mut RecorderStatus,
    song: Result<(), String>,
)
    ensures
        song is Ok ==> {
            &&& (*final(preview)) matches Some(p) && p.spec_paused()
            &&& recorder.has_take() ==> ((*final(status)) matches RecorderStatus::RecordingFinished(d)
                && d == recorder.take_duration())
        },
        song matches Err(msg) ==> {
            &&& *final(preview) == *old(preview)
            &&& (*final(status)) matches RecorderStatus::Error(e) && (e matches RecorderError::MidiFileParse(
                s,
            ) && s@ == msg@)
        },
{
    match song {
        Ok(()) => {
            *preview = Some(Preview::new());
            *status = RecorderStatus::RecordingFinished(recorder.duration());
        },
        Err(msg) => {
            *status = RecorderStatus::Error(RecorderError::MidiFileParse(msg));
        },
    }
}

/// A click on the save button: the save dialog opens only when there is a
/// take; without one the status becomes `NoNotesFound`.
pub fn handle_save_click(recorder: &FreeplayRecorder, status: &mut RecorderStatus) -> (open_dialog:
    bool)
    ensures
        open_dialog == recorder.has_take(),
        open_dialog ==> *final(status) == *old(status),
        !open_dialog ==> ((*final(status)) matches RecorderStatus::Error(e) && e is NoNotesFound),
{
    match recorder.as_smf() {
        Ok(_) => true,
        Err(e) => {
            *status = RecorderStatus::Error(e);
            false
        },
    }
}

/// Reports the outcome of writing the take to the file the user chose.
pub fn finish_save_click(status: &mut RecorderStatus, path: PathBuf, written: bool)
    ensures
        written ==> ((*final(status)) matches RecorderStatus::Saved(p) && p == path),
        !written ==> ((*final(status)) matches RecorderStatus::Error(e) && e is Write),
{
    if written {
        *status = RecorderStatus::Saved(path);
    } else {
        *status = RecorderStatus::Error(RecorderError::Write);
    }
}

/// A control of the preview bar that the user pressed.
#[derive(Clone, Copy, PartialEq, Eq, Debug, Structural)]
pub enum PreviewBarControl {
    PlayPause,
    Save,
    Record,
    Instruments,
    Back,
    ProgressBar,
}

/// What a press on the preview bar leads to.
#[derive(Clone, Copy, PartialEq, Eq, Debug, Structural)]
pub enum PreviewBarAction {
    TogglePlay,
    Seek,
    GoBack,
    Record,
    Save,
    OpenInstrumentSelector,
}

/// The action of a press on the preview bar. Play/pause, save and the
/// progress bar act only while there is a preview; the other controls
/// always act.
pub fn preview_bar_action(control: PreviewBarControl, preview_available: bool) -> (r: Option<
    PreviewBarAction,
>)
    ensures
        control == PreviewBarControl::PlayPause ==> r == (if preview_available {
            Some(PreviewBarAction::TogglePlay)
        } else {
            None::<PreviewBarAction>
        }),
        control == PreviewBarControl::Save ==> r == (if preview_available {
            Some(PreviewBarAction::Save)
        } else {
            None::<PreviewBarAction>
        }),
        control == PreviewBarControl::ProgressBar ==> r == (if preview_available {
            Some(PreviewBarAction::Seek)
        } else {
            None::<PreviewBarAction>
        }),
        control == PreviewBarControl::Record ==> r == Some(PreviewBarAction::Record),
        control == PreviewBarControl::Instruments ==> r == Some(
            PreviewBarAction::OpenInstrumentSelector,
        ),
        control == PreviewBarControl::Back ==> r == Some(PreviewBarAction::GoBack),
{
    match control {
        PreviewBarControl::PlayPause => if preview_available {
            Some(PreviewBarAction::TogglePlay)
        } else {
            None
        },
        PreviewBarControl::Save => if preview_available {
            Some(PreviewBarAction::Save)
        } else {
            None
        },
        PreviewBarControl::ProgressBar => if preview_available {
            Some(PreviewBarAction::Seek)
        } else {
            None
        },
        PreviewBarControl::Record => Some(PreviewBarAction::Record),
        PreviewBarControl::Instruments => Some(PreviewBarAction::OpenInstrumentSelector),
        PreviewBarControl::Back => Some(PreviewBarAction::GoBack),
    }
}

/// Selecting an instrument in the selector: the first channel's program
/// becomes `program`, and the program change to send on channel 0 is
/// returned. The selector closes afterwards.
pub fn select_instrument(current_programs: &mut Vec<u8>, program: u8) -> (r: (u8, MidiMessage))
    requires
        old(current_programs)@.len() > 0,
    ensures
        final(current_programs)@ == old(current_programs)@.update(0, program),
        r == (0u8, MidiMessage::ProgramChange { program }),
{
    current_programs.set(0, program);
    (0, MidiMessage::ProgramChange { program })
}

} // verus!
