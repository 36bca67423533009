//! The free-play recorder: a state machine that records MIDI events while
//! recording is on, closes the notes still held when it stops, and turns the
//! take into a single-track Standard MIDI File.

use vstd::prelude::*;
use std::path::PathBuf;
use std::time::{Duration, Instant};

use crate::midi::{
    channel_from_u8, delta_from_u32, Format, Header, MetaMessage, MidiMessage, Smf, Timing,
    TrackEvent, TrackEventKind,
};
use crate::platform::{
    duration_as_nanos, duration_total_nanos, elapsed_since, instant_elapsed,
    instant_elapsed_after, instant_now, zero_duration,
};

verus! {

/// Ticks per beat written into the header of a recorded file.
pub const TICKS_PER_BEAT: u16 = 480;

/// Tempo of a recorded file: 120 beats per minute.
pub const TEMPO_MICROS_PER_BEAT: u32 = 500_000;

/// With 480 ticks per beat at 500 000 µs per beat, one second is 960 ticks,
/// that is 24 ticks per 25 000 000 ns. The count is rounded to the nearest
/// tick, halves upwards, and saturates at `u32::MAX`.
pub open spec fn ticks_for_nanos(nanos: nat) -> int {
    let q = (24 * nanos + 12_500_000) / 25_000_000;
    if q > u32::MAX {
        u32::MAX as int
    } else {
        q as int
    }
}

/// The tick at which an event that happened `d` after the start lies.
pub open spec fn duration_ticks(d: Duration) -> int {
    ticks_for_nanos(duration_total_nanos(d))
}

/// Converts a time offset into MIDI ticks at 960 ticks per second.
pub fn duration_to_ticks(duration: Duration) -> (r: u32)
    ensures
        r == duration_ticks(duration),
{
    let nanos = duration_as_nanos(&duration);
    if nanos > 1_000_000_000_000_000_000u128 {
        assert((24 * nanos + 12_500_000) / 25_000_000 > u32::MAX) by (nonlinear_arith)
            requires
                nanos > 1_000_000_000_000_000_000u128,
        ;
        return u32::MAX;
    }
    let q = (nanos * 24 + 12_500_000) / 25_000_000;
    if q > u32::MAX as u128 {
        u32::MAX
    } else {
        q as u32
    }
}

/// Errors of the recorder.
#[derive(Debug, PartialEq, Eq)]
pub enum RecorderError {
    /// The take holds no note-on event.
    NoNotesFound,
    /// Writing the file failed.
    Write,
    /// The recorded file could not be read back as a song.
    MidiFileParse(String),
}

impl RecorderError {
    /// The message shown to the user for this error.
    pub fn message(&self) -> (r: String)
        ensures
            self is NoNotesFound ==> r@ == "No note events recorded"@,
            self is Write ==> r@ == "Failed to write MIDI file"@,
            self matches RecorderError::MidiFileParse(s) ==> r@ == s@,
    {
        match self {
            RecorderError::NoNotesFound => String::from_str("No note events recorded"),
            RecorderError::Write => String::from_str("Failed to write MIDI file"),
            RecorderError::MidiFileParse(s) => s.clone(),
        }
    }
}

/// What the recorder last reported to the user.
#[derive(Debug)]
pub enum RecorderStatus {
    Idle,
    RecordingFinished(Duration),
    Saved(PathBuf),
    Error(RecorderError),
}

impl Default for RecorderStatus {
    fn default() -> (r: Self)
        ensures
            r is Idle,
    {
        RecorderStatus::Idle
    }
}

/// A MIDI event as it was played, with its offset from the start of the take.
#[derive(Clone, Copy)]
pub struct RecordedMidiEvent {
    pub timestamp: Duration,
    pub channel: u8,
    pub message: MidiMessage,
}

/// The recorded events hold at least one note-on.
pub open spec fn has_note_on(events: Seq<RecordedMidiEvent>) -> bool {
    exists|i: int| 0 <= i < events.len() && (#[trigger] events[i]).message is NoteOn
}

/// The tick of the event just before `events[i]`, or 0 for the first one.
pub open spec fn previous_ticks(events: Seq<RecordedMidiEvent>, i: int) -> int {
    if i == 0 {
        0
    } else {
        duration_ticks(events[i - 1].timestamp)
    }
}

/// The delta time of `events[i]`: the ticks since the event before it,
/// or 0 where the clock went backwards.
pub open spec fn delta_ticks(events: Seq<RecordedMidiEvent>, i: int) -> int {
    let cur = duration_ticks(events[i].timestamp);
    let prev = previous_ticks(events, i);
    if cur >= prev {
        cur - prev
    } else {
        0
    }
}

/// The track event that `events[i]` becomes, its delta and channel stored
/// as the MIDI file's 28-bit and 4-bit fields store them.
pub open spec fn recorded_track_event(events: Seq<RecordedMidiEvent>, i: int) -> TrackEvent {
    TrackEvent {
        delta: (delta_ticks(events, i) as u32) & 0x0fff_ffffu32,
        kind: TrackEventKind::Midi {
            channel: events[i].channel & 0x0fu8,
            message: events[i].message,
        },
    }
}

/// The tempo and time signature (4/4) that open every recorded track.
pub open spec fn track_prelude() -> Seq<TrackEvent> {
    seq![
        TrackEvent { delta: 0, kind: TrackEventKind::Meta(MetaMessage::Tempo(500_000)) },
        TrackEvent { delta: 0, kind: TrackEventKind::Meta(MetaMessage::TimeSignature(4, 2, 24, 8)) },
    ]
}

/// The end-of-track event, one tick after the last recorded event.
pub open spec fn track_end() -> TrackEvent {
    TrackEvent { delta: 1, kind: TrackEventKind::Meta(MetaMessage::EndOfTrack) }
}

/// The one track of the file that a take becomes.
pub open spec fn recorded_track(events: Seq<RecordedMidiEvent>) -> Seq<TrackEvent> {
    track_prelude() + Seq::new(events.len(), |i: int| recorded_track_event(events, i)) + seq![
        track_end(),
    ]
}

/// The header of every recorded file: one track, 480 ticks per beat.
pub open spec fn recorded_header() -> Header {
    Header { format: Format::SingleTrack, timing: Timing::Metrical(480) }
}

/// `smf` is the file that the take `events` becomes.
pub open spec fn is_recorded_smf(smf: Smf, events: Seq<RecordedMidiEvent>) -> bool {
    &&& smf.header == recorded_header()
    &&& smf.tracks@.len() == 1
    &&& smf.tracks@[0]@ == recorded_track(events)
}

/// Turns a take into a single-track MIDI file. A take without any note-on
/// (only releases, pedals or other controls) is refused.
pub fn to_smf(events: &[RecordedMidiEvent]) -> (r: Result<Smf, RecorderError>)
    ensures
        r is Ok <==> has_note_on(events@),
        r matches Ok(smf) ==> is_recorded_smf(smf, events@),
        r matches Ok(smf) ==> smf.tracks@[0]@.len() == events@.len() + 3,
        r matches Ok(smf) ==> forall|i: int|
            0 <= i < events@.len() ==> (#[trigger] smf.tracks@[0]@[i + 2]).kind
                == (TrackEventKind::Midi {
                channel: events@[i].channel & 0x0fu8,
                message: events@[i].message,
            }),
        r matches Err(e) ==> e is NoNotesFound,
{
    let mut found = false;
    let mut k: usize = 0;
    while k < events.len()
        invariant
            k <= events.len(),
            found <==> exists|i: int| 0 <= i < k && (#[trigger] events@[i]).message is NoteOn,
        decreases events.len() - k,
    {
        if let MidiMessage::NoteOn { .. } = events[k].message {
            found = true;
        }
        k += 1;
    }
    if !found {
        return Err(RecorderError::NoNotesFound);
    }
    let mut track: Vec<TrackEvent> = Vec::new();
    track.push(
        TrackEvent { delta: 0, kind: TrackEventKind::Meta(MetaMessage::Tempo(TEMPO_MICROS_PER_BEAT)) },
    );
    track.push(
        TrackEvent { delta: 0, kind: TrackEventKind::Meta(MetaMessage::TimeSignature(4, 2, 24, 8)) },
    );
    let mut previous: u32 = 0;
    let mut i: usize = 0;
    while i < events.len()
        invariant
            i <= events.len(),
            previous == previous_ticks(events@, i as int),
            track@ == track_prelude() + Seq::new(i as nat, |j: int| recorded_track_event(events@, j)),
        decreases events.len() - i,
    {
        let event = events[i];
        let current = duration_to_ticks(event.timestamp);
        let delta = current.saturating_sub(previous);
        previous = current;
        let te = TrackEvent {
            delta: delta_from_u32(delta),
            kind: TrackEventKind::Midi { channel: channel_from_u8(event.channel), message: event.message },
        };
        track.push(te);
        i += 1;
        assert(track@ =~= track_prelude() + Seq::new(i as nat, |j: int| recorded_track_event(events@, j)));
    }
    track.push(TrackEvent { delta: 1, kind: TrackEventKind::Meta(MetaMessage::EndOfTrack) });
    let mut tracks: Vec<Vec<TrackEvent>> = Vec::new();
    tracks.push(track);
    let smf = Smf {
        header: Header { format: Format::SingleTrack, timing: Timing::Metrical(TICKS_PER_BEAT) },
        tracks,
    };
    assert(smf.tracks@[0]@ =~= recorded_track(events@));
    proof {
        law_track_carries_recorded_messages(events@);
    }
    Ok(smf)
}


/// `a` comes before `b` in the order `(channel, key)`.
pub open spec fn note_before(a: (u8, u8), b: (u8, u8)) -> bool {
    a.0 < b.0 || (a.0 == b.0 && a.1 < b.1)
}

/// The notes of `s` are in strictly ascending `(channel, key)` order, so
/// none occurs twice.
pub open spec fn strictly_ascending(s: Seq<(u8, u8)>) -> bool {
    forall|i: int, j: int| 0 <= i < j < s.len() ==> note_before(#[trigger] s[i], #[trigger] s[j])
}

/// How one event changes the set of sounding `(channel, key)` notes: a
/// note-on adds its key, a note-off removes it, anything else leaves it.
pub open spec fn apply_note_event(
    sounding: Set<(u8, u8)>,
    channel: u8,
    message: MidiMessage,
) -> Set<(u8, u8)> {
    match message {
        MidiMessage::NoteOn { key, .. } => sounding.insert((channel, key)),
        MidiMessage::NoteOff { key, .. } => sounding.remove((channel, key)),
        _ => sounding,
    }
}

/// The notes still sounding after `events`, starting from silence.
pub open spec fn sounding_notes(events: Seq<RecordedMidiEvent>) -> Set<(u8, u8)>
    decreases events.len(),
{
    if events.len() == 0 {
        Set::empty()
    } else {
        let last = events.last();
        apply_note_event(sounding_notes(events.drop_last()), last.channel, last.message)
    }
}

/// The note-offs, all at time `t` and with velocity 0, that release `notes`
/// in the order given.
pub open spec fn closing_events(notes: Seq<(u8, u8)>, t: Duration) -> Seq<RecordedMidiEvent> {
    Seq::new(
        notes.len(),
        |i: int|
            RecordedMidiEvent {
                timestamp: t,
                channel: notes[i].0,
                message: MidiMessage::NoteOff { key: notes[i].1, vel: 0 },
            },
    )
}

/// Releasing `notes` after `events` leaves sounding exactly the notes that
/// `events` left sounding and that `notes` does not name.
pub proof fn lemma_closing_releases(events: Seq<RecordedMidiEvent>, notes: Seq<(u8, u8)>, t: Duration)
    ensures
        forall|n: (u8, u8)|
            #![trigger sounding_notes(events + closing_events(notes, t)).contains(n)]
            sounding_notes(events + closing_events(notes, t)).contains(n) <==> (sounding_notes(
                events,
            ).contains(n) && !notes.contains(n)),
    decreases notes.len(),
{
    if notes.len() == 0 {
        assert(events + closing_events(notes, t) =~= events);
    } else {
        let init = notes.drop_last();
        lemma_closing_releases(events, init, t);
        let all = events + closing_events(notes, t);
        assert(all.drop_last() =~= events + closing_events(init, t));
        assert forall|n: (u8, u8)|
            #![trigger sounding_notes(events + closing_events(notes, t)).contains(n)]
            sounding_notes(events + closing_events(notes, t)).contains(n) <==> (sounding_notes(
                events,
            ).contains(n) && !notes.contains(n)) by {
            assert(sounding_notes(all.drop_last()).contains(n) <==> (sounding_notes(events).contains(n)
                && !init.contains(n)));
            if notes.contains(n) && n != notes.last() {
                let i = choose|i: int| 0 <= i < notes.len() && notes[i] == n;
                assert(init[i] == n);
            }
            if init.contains(n) {
                let i = choose|i: int| 0 <= i < init.len() && init[i] == n;
                assert(notes[i] == n);
            }
        }
    }
}

/// The offsets of `events` never decrease.
pub open spec fn timestamps_nondecreasing(events: Seq<RecordedMidiEvent>) -> bool {
    forall|i: int, j: int|
        0 <= i <= j < events.len() ==> duration_total_nanos(#[trigger] events[i].timestamp)
            <= duration_total_nanos(#[trigger] events[j].timestamp)
}

/// Every offset of `events` was measured from `start`.
pub open spec fn measured_from(start: Instant, events: Seq<RecordedMidiEvent>) -> bool {
    forall|i: int| 0 <= i < events.len() ==> elapsed_since(start, #[trigger] events[i].timestamp)
}

/// `t` may follow `events`: it was measured from `start` and is no earlier
/// than the last of them.
pub open spec fn may_follow(start: Instant, events: Seq<RecordedMidiEvent>, t: Duration) -> bool {
    &&& elapsed_since(start, t)
    &&& events.len() > 0 ==> duration_total_nanos(events.last().timestamp) <= duration_total_nanos(t)
}

/// A recording in progress: the clock reading at its start, the events so
/// far and the notes that are still held, in ascending order.
pub struct RecordingInProgressState {
    started_at: Instant,
    events: Vec<RecordedMidiEvent>,
    active_notes: Vec<(u8, u8)>,
}

impl RecordingInProgressState {
    /// The held notes are ascending and are exactly those that the events
    /// leave sounding; the events were stamped from the start, in order.
    pub closed spec fn wf(&self) -> bool {
        &&& timestamps_nondecreasing(self.events@)
        &&& measured_from(self.started_at, self.events@)
        &&& strictly_ascending(self.active_notes@)
        &&& forall|n: (u8, u8)|
            #![trigger self.active_notes@.contains(n)]
            self.active_notes@.contains(n) <==> sounding_notes(self.events@).contains(n)
    }

    /// The events recorded so far.
    pub closed spec fn recorded_events(&self) -> Seq<RecordedMidiEvent> {
        self.events@
    }

    /// The notes still held, in ascending `(channel, key)` order.
    pub closed spec fn held_notes(&self) -> Seq<(u8, u8)> {
        self.active_notes@
    }

    /// The clock reading at which the recording started.
    pub closed spec fn start_instant(&self) -> Instant {
        self.started_at
    }

    fn new(started_at: Instant) -> (r: Self)
        ensures
            r.wf(),
            r.start_instant() == started_at,
            r.recorded_events() == Seq::<RecordedMidiEvent>::empty(),
            r.held_notes() == Seq::<(u8, u8)>::empty(),
    {
        RecordingInProgressState { started_at, events: Vec::new(), active_notes: Vec::new() }
    }

    /// Appends a note-off at `timestamp`, velocity 0, for every held note in
    /// ascending `(channel, key)` order, and clears the held notes.
    fn finish_active_notes(&mut self, timestamp: Duration)
        requires
            old(self).wf(),
            may_follow(old(self).started_at, old(self).events@, timestamp),
        ensures
            final(self).wf(),
            final(self).recorded_events() == old(self).recorded_events() + closing_events(
                old(self).held_notes(),
                timestamp,
            ),
            final(self).held_notes() == Seq::<(u8, u8)>::empty(),
            final(self).started_at == old(self).started_at,
    {
        let ghost notes = self.active_notes@;
        let mut i: usize = 0;
        while i < self.active_notes.len()
            invariant
                self.active_notes@ == notes,
                i <= notes.len(),
                self.events@ == old(self).events@ + closing_events(notes.take(i as int), timestamp),
                self.started_at == old(self).started_at,
            decreases notes.len() - i,
        {
            let (channel, key) = self.active_notes[i];
            self.events.push(
                RecordedMidiEvent {
                    timestamp,
                    channel,
                    message: MidiMessage::NoteOff { key, vel: 0 },
                },
            );
            i += 1;
            assert(closing_events(notes.take(i as int), timestamp) =~= closing_events(
                notes.take(i - 1),
                timestamp,
            ).push(closing_events(notes, timestamp)[i - 1]));
            assert(self.events@ =~= old(self).events@ + closing_events(notes.take(i as int), timestamp));
        }
        assert(notes.take(notes.len() as int) =~= notes);
        self.active_notes = Vec::new();
        proof {
            lemma_closing_releases(old(self).events@, notes, timestamp);
        }
        assert forall|n: (u8, u8)|
            #![trigger self.active_notes@.contains(n)]
            self.active_notes@.contains(n) <==> sounding_notes(self.events@).contains(n) by {
            if sounding_notes(self.events@).contains(n) {
                assert(sounding_notes(old(self).events@).contains(n));
                assert(old(self).active_notes@.contains(n));
            }
        }
    }

    /// The time since the start, read now: no earlier than the last event.
    fn elapsed_now(&self) -> (t: Duration)
        requires
            self.wf(),
        ensures
            may_follow(self.started_at, self.events@, t),
    {
        let n = self.events.len();
        if n == 0 {
            instant_elapsed(&self.started_at)
        } else {
            instant_elapsed_after(&self.started_at, &self.events[n - 1].timestamp)
        }
    }

    /// The first position at which `note` is or would be.
    fn position_of(&self, note: (u8, u8)) -> (p: usize)
        requires
            strictly_ascending(self.active_notes@),
        ensures
            p <= self.active_notes@.len(),
            forall|i: int| 0 <= i < p ==> note_before(#[trigger] self.active_notes@[i], note),
            p < self.active_notes@.len() ==> !note_before(self.active_notes@[p as int], note),
    {
        let mut p: usize = 0;
        while p < self.active_notes.len()
            invariant
                p <= self.active_notes@.len(),
                forall|i: int| 0 <= i < p ==> note_before(#[trigger] self.active_notes@[i], note),
            decreases self.active_notes@.len() - p,
        {
            let cur = self.active_notes[p];
            if !(cur.0 < note.0 || (cur.0 == note.0 && cur.1 < note.1)) {
                return p;
            }
            p += 1;
        }
        p
    }

    /// Records an event and updates the held notes.
    fn record(&mut self, event: RecordedMidiEvent)
        requires
            old(self).wf(),
            may_follow(old(self).started_at, old(self).events@, event.timestamp),
        ensures
            final(self).wf(),
            final(self).recorded_events() == old(self).recorded_events().push(event),
            final(self).started_at == old(self).started_at,
    {
        let ghost old_events = self.events@;
        self.events.push(event);
        let ghost sounding = sounding_notes(self.events@);
        assert(self.events@.drop_last() =~= old_events);
        match event.message {
            MidiMessage::NoteOn { key, .. } => {
                let note = (event.channel, key);
                let p = self.position_of(note);
                if p < self.active_notes.len() && self.active_notes[p].0 == note.0 && self.active_notes[p].1 == note.1 {
                    assert(self.active_notes@.contains(note));
                } else {
                    self.active_notes.insert(p, note);
                }
                assert forall|n: (u8, u8)|
                    #![trigger self.active_notes@.contains(n)]
                    self.active_notes@.contains(n) <==> sounding.contains(n) by {
                    if self.active_notes@.contains(n) && n != note {
                        let i = choose|i: int| 0 <= i < self.active_notes@.len() && self.active_notes@[i] == n;
                        if self.active_notes@.len() == old(self).active_notes@.len() || i < p {
                            assert(old(self).active_notes@[i] == n);
                        } else {
                            assert(old(self).active_notes@[i - 1] == n);
                        }
                        assert(old(self).active_notes@.contains(n));
                    }
                    if sounding.contains(n) && n != note {
                        assert(old(self).active_notes@.contains(n));
                        let i = choose|i: int| 0 <= i < old(self).active_notes@.len() && old(self).active_notes@[i] == n;
                        if i < p {
                            assert(self.active_notes@[i] == n);
                        } else if self.active_notes@.len() == old(self).active_notes@.len() {
                            assert(self.active_notes@[i] == n);
                        } else {
                            assert(self.active_notes@[i + 1] == n);
                        }
                    }
                    if n == note {
                        assert(self.active_notes@[p as int] == note);
                    }
                }
            },
            MidiMessage::NoteOff { key, .. } => {
                let note = (event.channel, key);
                let p = self.position_of(note);
                if p < self.active_notes.len() && self.active_notes[p].0 == note.0 && self.active_notes[p].1 == note.1 {
                    self.active_notes.remove(p);
                }
                assert forall|n: (u8, u8)|
                    #![trigger self.active_notes@.contains(n)]
                    self.active_notes@.contains(n) <==> sounding.contains(n) by {
                    if self.active_notes@.contains(n) {
                        let i = choose|i: int| 0 <= i < self.active_notes@.len() && self.active_notes@[i] == n;
                        if self.active_notes@.len() == old(self).active_notes@.len() {
                            assert(old(self).active_notes@[i] == n);
                        } else if i < p {
                            assert(old(self).active_notes@[i] == n);
                        } else {
                            assert(old(self).active_notes@[i + 1] == n);
                        }
                        assert(old(self).active_notes@.contains(n));
                    }
                    if sounding.contains(n) {
                        assert(old(self).active_notes@.contains(n));
                        let i = choose|i: int| 0 <= i < old(self).active_notes@.len() && old(self).active_notes@[i] == n;
                        if self.active_notes@.len() == old(self).active_notes@.len() {
                            assert(self.active_notes@[i] == n);
                        } else if i < p {
                            assert(self.active_notes@[i] == n);
                        } else {
                            assert(self.active_notes@[i - 1] == n);
                        }
                    }
                }
            },
            _ => {
                assert forall|n: (u8, u8)|
                    #![trigger self.active_notes@.contains(n)]
                    self.active_notes@.contains(n) <==> sounding.contains(n) by {
                    assert(old(self).active_notes@.contains(n) == self.active_notes@.contains(n));
                }
            },
        }
    }
}

/// A finished take: how long it lasted and the file it became.
pub struct RecordedTake {
    duration: Duration,
    smf: Smf,
}

enum RecorderState {
    Idle,
    Recording(RecordingInProgressState),
    Recorded(RecordedTake),
}

/// Records what is played in free-play mode.
pub struct FreeplayRecorder {
    state: RecorderState,
}

impl Default for FreeplayRecorder {
    fn default() -> (r: Self)
        ensures
            r.wf(),
            r.is_idle(),
    {
        FreeplayRecorder { state: RecorderState::Idle }
    }
}

impl FreeplayRecorder {
    /// The recorder's invariant: while recording, the events were stamped
    /// from the start, in order, and the held notes are ascending and are
    /// exactly the notes that the events leave sounding.
    #[verifier::type_invariant]
    pub closed spec fn wf(&self) -> bool {
        match self.state {
            RecorderState::Recording(s) => s.wf(),
            _ => true,
        }
    }

    /// Neither recording nor holding a take.
    pub closed spec fn is_idle(&self) -> bool {
        self.state is Idle
    }

    /// A recording is in progress.
    pub closed spec fn recording(&self) -> bool {
        self.state is Recording
    }

    /// A finished take is held.
    pub closed spec fn has_take(&self) -> bool {
        self.state is Recorded
    }

    /// The clock reading at which the recording in progress started.
    pub closed spec fn started(&self) -> Instant {
        match self.state {
            RecorderState::Recording(s) => s.start_instant(),
            _ => arbitrary(),
        }
    }

    /// The events of the recording in progress (empty otherwise).
    pub closed spec fn events(&self) -> Seq<RecordedMidiEvent> {
        match self.state {
            RecorderState::Recording(s) => s.recorded_events(),
            _ => Seq::empty(),
        }
    }

    /// The notes held in the recording in progress, ascending.
    pub closed spec fn held_notes(&self) -> Seq<(u8, u8)> {
        match self.state {
            RecorderState::Recording(s) => s.held_notes(),
            _ => Seq::empty(),
        }
    }

    /// The length of the finished take.
    pub closed spec fn take_duration(&self) -> Duration {
        match self.state {
            RecorderState::Recorded(t) => t.duration,
            _ => arbitrary(),
        }
    }

    /// The file of the finished take.
    pub closed spec fn take_smf(&self) -> Smf {
        match self.state {
            RecorderState::Recorded(t) => t.smf,
            _ => arbitrary(),
        }
    }

    /// Whether a recording is in progress.
    pub fn is_recording(&self) -> (r: bool)
        ensures
            r == self.recording(),
    {
        match &self.state {
            RecorderState::Recording(_) => true,
            _ => false,
        }
    }

    /// Starts a new recording, discarding any earlier take or recording.
    pub fn start(&mut self)
        ensures
            final(self).wf(),
            final(self).recording(),
            !final(self).has_take(),
            !final(self).is_idle(),
            final(self).events() == Seq::<RecordedMidiEvent>::empty(),
            final(self).held_notes() == Seq::<(u8, u8)>::empty(),
    {
        self.state = RecorderState::Recording(RecordingInProgressState::new(instant_now()));
    }

    /// Records an event played on `channel`, stamped with the time since the
    /// recording started. Outside a recording nothing changes.
    pub fn push_event(&mut self, channel: u8, message: MidiMessage)
        ensures
            final(self).wf(),
            !old(self).recording() ==> *final(self) == *old(self),
            old(self).recording() ==> {
                &&& final(self).recording()
                &&& final(self).started() == old(self).started()
                &&& final(self).events().len() == old(self).events().len() + 1
                &&& final(self).events().drop_last() == old(self).events()
                &&& final(self).events().last().channel == channel
                &&& final(self).events().last().message == message
                &&& elapsed_since(old(self).started(), final(self).events().last().timestamp)
                &&& old(self).events().len() > 0 ==> duration_total_nanos(
                    old(self).events().last().timestamp,
                ) <= duration_total_nanos(final(self).events().last().timestamp)
                &&& timestamps_nondecreasing(final(self).events())
            },
    {
        proof {
            use_type_invariant(&*self);
        }
        if !self.is_recording() {
            return;
        }
        let mut state = RecorderState::Idle;
        core::mem::swap(&mut state, &mut self.state);
        if let RecorderState::Recording(mut in_progress) = state {
            let timestamp = in_progress.elapsed_now();
            in_progress.record(RecordedMidiEvent { timestamp, channel, message });
            proof {
                assert(in_progress.recorded_events().drop_last() =~= old(self).events());
            }
            self.state = RecorderState::Recording(in_progress);
        }
    }

    /// The file of the finished take, if there is one.
    pub fn as_smf(&self) -> (r: Result<&Smf, RecorderError>)
        ensures
            self.has_take() <==> r is Ok,
            r matches Ok(smf) ==> *smf == self.take_smf(),
            r matches Err(e) ==> e is NoNotesFound,
    {
        match &self.state {
            RecorderState::Recorded(take) => Ok(&take.smf),
            _ => Err(RecorderError::NoNotesFound),
        }
    }

    /// The length of the recording: zero when idle, the time since the start
    /// while recording, the length of the take once finished.
    pub fn duration(&self) -> (r: Duration)
        ensures
            self.is_idle() ==> duration_total_nanos(r) == 0,
            self.recording() ==> elapsed_since(self.started(), r),
            self.recording() && self.events().len() > 0 ==> duration_total_nanos(
                self.events().last().timestamp,
            ) <= duration_total_nanos(r),
            self.has_take() ==> r == self.take_duration(),
    {
        proof {
            use_type_invariant(self);
        }
        let reading = match &self.state {
            RecorderState::Recording(s) => s.elapsed_now(),
            _ => zero_duration(),
        };
        self.duration_from_reading(reading)
    }

    /// The length of the recording, given `reading`, the time that the clock
    /// shows as passed since the start: zero when idle, `reading` itself
    /// while recording, the length of the take once finished.
    pub fn duration_from_reading(&self, reading: Duration) -> (r: Duration)
        ensures
            self.is_idle() ==> duration_total_nanos(r) == 0,
            self.recording() ==> r == reading,
            self.has_take() ==> r == self.take_duration(),
    {
        match &self.state {
            RecorderState::Idle => zero_duration(),
            RecorderState::Recording(_) => reading,
            RecorderState::Recorded(take) => take.duration,
        }
    }

    /// Stops the recording: releases the held notes at the stop time and
    /// turns the take into a MIDI file. Without a recording in progress, or
    /// when the take holds no note-on, the recorder becomes idle and the
    /// result is `NoNotesFound`; any earlier take is discarded.
    pub fn stop(&mut self) -> (r: Result<&Smf, RecorderError>)
        ensures
            final(self).wf(),
            !final(self).recording(),
            !(old(self).recording() && has_note_on(old(self).events())) ==> {
                &&& r matches Err(e) && e is NoNotesFound
                &&& final(self).is_idle()
            },
            old(self).recording() && has_note_on(old(self).events()) ==> {
                let take = old(self).events() + closing_events(
                    old(self).held_notes(),
                    final(self).take_duration(),
                );
                &&& final(self).has_take()
                &&& elapsed_since(old(self).started(), final(self).take_duration())
                &&& old(self).events().len() > 0 ==> duration_total_nanos(
                    old(self).events().last().timestamp,
                ) <= duration_total_nanos(final(self).take_duration())
                &&& timestamps_nondecreasing(take)
                &&& r matches Ok(smf) && *smf == final(self).take_smf()
                &&& is_recorded_smf(final(self).take_smf(), take)
                &&& sounding_notes(take) == Set::<(u8, u8)>::empty()
            },
    {
        proof {
            use_type_invariant(&*self);
        }
        let mut state = RecorderState::Idle;
        core::mem::swap(&mut state, &mut self.state);
        let mut in_progress = match state {
            RecorderState::Recording(s) => s,
            _ => {
                return Err(RecorderError::NoNotesFound);
            },
        };
        let stop_time = in_progress.elapsed_now();
        let ghost held = in_progress.held_notes();
        let ghost before = in_progress.recorded_events();
        in_progress.finish_active_notes(stop_time);
        proof {
            let take = in_progress.recorded_events();
            assert(has_note_on(take) <==> has_note_on(before)) by {
                if has_note_on(take) {
                    let i = choose|i: int| 0 <= i < take.len() && (#[trigger] take[i]).message is NoteOn;
                    assert(i < before.len());
                    assert(before[i] == take[i]);
                }
                if has_note_on(before) {
                    let i = choose|i: int| 0 <= i < before.len() && (#[trigger] before[i]).message is NoteOn;
                    assert(take[i] == before[i]);
                }
            }
            lemma_closing_releases(before, held, stop_time);
            assert(sounding_notes(take) =~= Set::<(u8, u8)>::empty()) by {
                assert forall|n: (u8, u8)| !sounding_notes(take).contains(n) by {
                    if sounding_notes(before).contains(n) {
                        assert(old(self).held_notes().contains(n));
                    }
                }
            }
        }
        let smf = match to_smf(in_progress.events.as_slice()) {
            Ok(smf) => smf,
            Err(e) => {
                return Err(e);
            },
        };
        self.state = RecorderState::Recorded(RecordedTake { duration: stop_time, smf });
        self.as_smf()
    }
}

/// The recorder is always in exactly one of its three states: idle,
/// recording, or holding a finished take.
pub proof fn law_recorder_states_exclusive(recorder: FreeplayRecorder)
    ensures
        recorder.is_idle() || recorder.recording() || recorder.has_take(),
        !(recorder.is_idle() && recorder.recording()),
        !(recorder.is_idle() && recorder.has_take()),
        !(recorder.recording() && recorder.has_take()),
{
}

/// While recording, every event was stamped with a time measured from the
/// start of the recording, and the stamps never decrease.
pub proof fn law_recording_timestamps_in_order(recorder: FreeplayRecorder)
    requires
        recorder.wf(),
        recorder.recording(),
    ensures
        timestamps_nondecreasing(recorder.events()),
        measured_from(recorder.started(), recorder.events()),
{
}

/// While recording, the held notes are in ascending `(channel, key)` order
/// and are exactly the notes that the recorded events leave sounding.
pub proof fn law_held_notes_are_sounding_notes(recorder: FreeplayRecorder)
    requires
        recorder.wf(),
        recorder.recording(),
    ensures
        strictly_ascending(recorder.held_notes()),
        forall|n: (u8, u8)|
            recorder.held_notes().contains(n) <==> sounding_notes(recorder.events()).contains(n),
{
}

/// The sum of the delta times of `track`.
pub open spec fn sum_deltas(track: Seq<TrackEvent>) -> int
    decreases track.len(),
{
    if track.len() == 0 {
        0
    } else {
        sum_deltas(track.drop_last()) + track.last().delta
    }
}

/// Later offsets never lie at an earlier tick.
pub proof fn lemma_ticks_monotonic(a: nat, b: nat)
    requires
        a <= b,
    ensures
        ticks_for_nanos(a) <= ticks_for_nanos(b),
{
    vstd::arithmetic::div_mod::lemma_div_is_ordered(
        (24 * a + 12_500_000) as int,
        (24 * b + 12_500_000) as int,
        25_000_000,
    );
}

/// When the recorded offsets never decrease and each gap between two
/// consecutive events fits in the 28-bit delta field, adding up the delta times of the written track up to
/// and including the event of `events[k]` gives exactly that event's tick:
/// the file places every event at the time at which it was played.
pub proof fn law_deltas_place_events_at_their_ticks(events: Seq<RecordedMidiEvent>, k: int)
    requires
        0 <= k < events.len(),
        timestamps_nondecreasing(events),
        forall|i: int| 0 <= i <= k ==> #[trigger] delta_ticks(events, i) < 0x1000_0000,
    ensures
        sum_deltas(recorded_track(events).take(k + 3)) == duration_ticks(events[k].timestamp),
    decreases k,
{
    let track = recorded_track(events);
    assert(track.take(k + 3).drop_last() =~= track.take(k + 2));
    assert(track[k + 2] == recorded_track_event(events, k));
    let cur = duration_ticks(events[k].timestamp);
    if k == 0 {
        assert(track.take(2).drop_last() =~= track.take(1));
        assert(track.take(1).drop_last() =~= track.take(0));
        assert(track[0] == track_prelude()[0]);
        assert(track[1] == track_prelude()[1]);
        assert(sum_deltas(track.take(0)) == 0);
        assert(sum_deltas(track.take(1)) == 0);
        assert(sum_deltas(track.take(2)) == 0);
    } else {
        lemma_ticks_monotonic(
            duration_total_nanos(events[k - 1].timestamp),
            duration_total_nanos(events[k].timestamp),
        );
        law_deltas_place_events_at_their_ticks(events, k - 1);
    }
    let d = delta_ticks(events, k);
    assert(0 <= d < 0x1000_0000);
    let du = d as u32;
    assert(du < 0x1000_0000u32);
    assert(du & 0x0fff_ffffu32 == du) by (bit_vector)
        requires
            du < 0x1000_0000u32,
    ;
}

/// A recorded event is a note-on or note-off of `note = (channel, key)`.
pub open spec fn event_touches_note(e: RecordedMidiEvent, note: (u8, u8)) -> bool {
    e.channel == note.0 && match e.message {
        MidiMessage::NoteOn { key, .. } => key == note.1,
        MidiMessage::NoteOff { key, .. } => key == note.1,
        _ => false,
    }
}

/// A track event is a note-on or note-off of `key` on `channel`.
pub open spec fn track_event_touches_note(e: TrackEvent, channel: u8, key: u8) -> bool {
    match e.kind {
        TrackEventKind::Midi { channel: c, message } => c == channel && match message {
            MidiMessage::NoteOn { key: k, .. } => k == key,
            MidiMessage::NoteOff { key: k, .. } => k == key,
            _ => false,
        },
        _ => false,
    }
}

/// A track event is a note-off.
pub open spec fn is_note_off_event(e: TrackEvent) -> bool {
    e.kind matches TrackEventKind::Midi { message: MidiMessage::NoteOff { .. }, .. }
}

/// A note whose last note event is a note-on is still sounding.
pub proof fn lemma_last_note_on_sounds(events: Seq<RecordedMidiEvent>, note: (u8, u8), m: int)
    requires
        0 <= m < events.len(),
        events[m].channel == note.0,
        events[m].message matches MidiMessage::NoteOn { key, .. } && key == note.1,
        forall|j: int| m < j < events.len() ==> !event_touches_note(#[trigger] events[j], note),
    ensures
        sounding_notes(events).contains(note),
    decreases events.len(),
{
    let init = events.drop_last();
    if m < events.len() - 1 {
        lemma_last_note_on_sounds(init, note, m);
        assert(!event_touches_note(events[events.len() - 1], note));
    }
}

/// No note is left hanging in a stopped take: in the track of the file that
/// `stop` makes of the recording `before` (see its `ensures`), for every
/// channel and key the last note event is a note-off. Channels are compared
/// as the file stores them, in four bits.
pub proof fn law_stopped_take_leaves_no_note_hanging(
    before: FreeplayRecorder,
    after: FreeplayRecorder,
    channel: u8,
    key: u8,
    i: int,
)
    requires
        before.wf(),
        before.recording(),
        after.has_take(),
        is_recorded_smf(
            after.take_smf(),
            before.events() + closing_events(before.held_notes(), after.take_duration()),
        ),
        0 <= i < after.take_smf().tracks@[0]@.len(),
        track_event_touches_note(after.take_smf().tracks@[0]@[i], channel, key),
        forall|j: int|
            i < j < after.take_smf().tracks@[0]@.len() ==> !track_event_touches_note(
                #[trigger] after.take_smf().tracks@[0]@[j],
                channel,
                key,
            ),
    ensures
        is_note_off_event(after.take_smf().tracks@[0]@[i]),
{
    let events = before.events();
    let held = before.held_notes();
    let closing = closing_events(held, after.take_duration());
    let take = events + closing;
    let track = after.take_smf().tracks@[0]@;
    assert(track == recorded_track(take));
    assert(track.len() == take.len() + 3);
    if i < 2 {
        assert(track[i] == track_prelude()[i]);
    } else if i == take.len() + 2 {
        assert(track[i] == track_end());
    } else {
        let m = i - 2;
        assert(track[i] == recorded_track_event(take, m));
        if m >= events.len() {
            assert(take[m] == closing[m - events.len()]);
        } else {
            assert(take[m] == events[m]);
            let c0 = events[m].channel;
            if events[m].message is NoteOn {
                let note = (c0, key);
                assert forall|j: int| m < j < events.len() implies !event_touches_note(
                    #[trigger] events[j],
                    note,
                ) by {
                    assert(take[j] == events[j]);
                    assert(track[j + 2] == recorded_track_event(take, j));
                    if event_touches_note(events[j], note) {
                        assert(track_event_touches_note(track[j + 2], channel, key));
                    }
                }
                lemma_last_note_on_sounds(events, note, m);
                law_held_notes_are_sounding_notes(before);
                assert(held.contains(note));
                let p = choose|p: int| 0 <= p < held.len() && held[p] == note;
                let idx = events.len() + p;
                assert(take[idx] == closing[p]);
                assert(track[idx + 2] == recorded_track_event(take, idx));
                assert(track_event_touches_note(track[idx + 2], channel, key));
                assert(false);
            }
        }
    }
}

/// The track of a take has the two opening meta events, then one MIDI
/// event per recorded event, each carrying exactly the message that was
/// recorded (velocity included) on the recorded channel in four bits, in the
/// order played, then the end of the track.
pub proof fn law_track_carries_recorded_messages(events: Seq<RecordedMidiEvent>)
    ensures
        recorded_track(events).len() == events.len() + 3,
        forall|i: int|
            0 <= i < events.len() ==> (#[trigger] recorded_track(events)[i + 2]).kind
                == (TrackEventKind::Midi {
                channel: events[i].channel & 0x0fu8,
                message: events[i].message,
            }),
        recorded_track(events)[0].kind == TrackEventKind::Meta(MetaMessage::Tempo(500_000)),
        recorded_track(events)[1].kind == TrackEventKind::Meta(
            MetaMessage::TimeSignature(4, 2, 24, 8),
        ),
        recorded_track(events)[events.len() + 2int].kind == TrackEventKind::Meta(
            MetaMessage::EndOfTrack,
        ),
{
    let t = recorded_track(events);
    assert forall|i: int| 0 <= i < events.len() implies (#[trigger] t[i + 2]).kind
        == TrackEventKind::Midi {
        channel: events[i].channel & 0x0fu8,
        message: events[i].message,
    } by {
        assert(t[i + 2] == recorded_track_event(events, i));
    }
}

} // verus!
