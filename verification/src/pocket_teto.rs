//! The decisions of the syllable voice engine: which syllable a note-on
//! plays (round robin), how far its pitch is shifted, which MIDI messages
//! reach the engine, and how the `oto.ini` timing file is read.

use vstd::prelude::*;
use std::sync::mpsc::Sender;

use crate::midi::MidiMessage;

verus! {

/// A channel end that sends values to the engine thread.
#[verifier::external_type_specification]
#[verifier::external_body]
#[verifier::reject_recursive_types(T)]
pub struct ExSender<T>(std::sync::mpsc::Sender<T>);

/// `Sender::clone`: another sending end of the same channel. Nothing is
/// stated of it: the library never looks inside a sender.
pub assume_specification<T>[ <std::sync::mpsc::Sender<T> as Clone>::clone ](
    sender: &Sender<T>,
) -> Sender<T>;

/// What the engine plays for one note-on: which syllable, shifted by how
/// many semitones from the base note, at which velocity. `generation` is the
/// engine's generation when the note started; a stop ends that generation.
#[derive(Clone, Copy, PartialEq, Eq, Debug, Structural)]
pub struct NotePlayback {
    pub syllable_index: usize,
    pub semitones: i16,
    pub velocity: u8,
    pub generation: u64,
}

/// A playback may keep sounding while the engine is still in the generation
/// in which it started.
pub open spec fn playback_is_current(current_generation: u64, playback: NotePlayback) -> bool {
    playback.generation == current_generation
}

/// Whether `playback` may keep sounding, the engine being in generation
/// `current_generation`. A source asks this before each sample.
pub fn still_playing(current_generation: u64, playback: &NotePlayback) -> (r: bool)
    ensures
        r == playback_is_current(current_generation, *playback),
{
    playback.generation == current_generation
}

/// The syllable queue of the voice engine: the number of loaded syllables,
/// the one that plays next, the note at which samples play unshifted, and
/// the generation of the notes that may sound (each stop starts a new one).
pub struct PocketTetoEngine {
    base_note: u8,
    syllable_count: usize,
    current_index: usize,
    generation: u64,
}

/// The generation that follows `g`.
pub open spec fn next_generation(g: u64) -> u64 {
    if g == u64::MAX {
        0
    } else {
        (g + 1) as u64
    }
}

/// The syllable that follows `index` in a queue of `count` syllables.
pub open spec fn next_syllable(index: int, count: int) -> int {
    (index + 1) % count
}

impl PocketTetoEngine {
    /// The next index is a valid syllable, or 0 when none is loaded.
    #[verifier::type_invariant]
    pub closed spec fn wf(&self) -> bool {
        if self.syllable_count == 0 {
            self.current_index == 0
        } else {
            self.current_index < self.syllable_count
        }
    }

    pub closed spec fn spec_base_note(&self) -> u8 {
        self.base_note
    }

    pub closed spec fn spec_syllable_count(&self) -> usize {
        self.syllable_count
    }

    pub closed spec fn spec_current_index(&self) -> usize {
        self.current_index
    }

    pub closed spec fn spec_generation(&self) -> u64 {
        self.generation
    }

    /// A queue of `syllable_count` loaded syllables that starts with the
    /// first one.
    pub fn new(base_note: u8, syllable_count: usize) -> (r: Self)
        ensures
            r.wf(),
            r.spec_base_note() == base_note,
            r.spec_syllable_count() == syllable_count,
            r.spec_current_index() == 0,
            r.spec_generation() == 0,
    {
        PocketTetoEngine { base_note, syllable_count, current_index: 0, generation: 0 }
    }

    /// Handles a note-on: picks the current syllable, advances the queue
    /// round robin, and gives the pitch shift in semitones from the base
    /// note. Without loaded syllables nothing is played.
    pub fn on_note_on(&mut self, midi_note: u8, velocity: u8) -> (r: Option<NotePlayback>)
        ensures
            final(self).wf(),
            final(self).spec_base_note() == old(self).spec_base_note(),
            final(self).spec_generation() == old(self).spec_generation(),
            final(self).spec_syllable_count() == old(self).spec_syllable_count(),
            old(self).spec_syllable_count() == 0 ==> r is None && *final(self) == *old(self),
            old(self).spec_syllable_count() > 0 ==> {
                &&& r == Some(
                    NotePlayback {
                        syllable_index: old(self).spec_current_index(),
                        semitones: (midi_note - old(self).spec_base_note()) as i16,
                        velocity,
                        generation: old(self).spec_generation(),
                    },
                )
                &&& final(self).spec_current_index() == next_syllable(
                    old(self).spec_current_index() as int,
                    old(self).spec_syllable_count() as int,
                )
            },
    {
        proof {
            use_type_invariant(&*self);
        }
        if self.syllable_count == 0 {
            return None;
        }
        let index = self.current_index;
        self.current_index = (self.current_index + 1) % self.syllable_count;
        let semitones = midi_note as i16 - self.base_note as i16;
        Some(NotePlayback { syllable_index: index, semitones, velocity, generation: self.generation })
    }

    /// Stops all currently playing syllables: it starts a new generation, so
    /// no note started before it is current any more. The queue position is
    /// kept.
    pub fn stop_all(&mut self)
        ensures
            final(self).spec_generation() == next_generation(old(self).spec_generation()),
            final(self).spec_base_note() == old(self).spec_base_note(),
            final(self).spec_syllable_count() == old(self).spec_syllable_count(),
            final(self).spec_current_index() == old(self).spec_current_index(),
    {
        proof {
            use_type_invariant(&*self);
        }
        if self.generation == u64::MAX {
            self.generation = 0;
        } else {
            self.generation = self.generation + 1;
        }
    }

    /// The generation of the notes that may sound now.
    pub fn generation(&self) -> (r: u64)
        ensures
            r == self.spec_generation(),
    {
        self.generation
    }

    /// Whether a note that the engine started may keep sounding: only notes
    /// of the current generation may.
    pub fn is_playing(&self, playback: &NotePlayback) -> (r: bool)
        ensures
            r == playback_is_current(self.spec_generation(), *playback),
    {
        still_playing(self.generation, playback)
    }

    /// The number of loaded syllables.
    pub fn syllable_count(&self) -> (r: usize)
        ensures
            r == self.spec_syllable_count(),
    {
        self.syllable_count
    }

    /// The index of the syllable that plays next.
    pub fn current_index(&self) -> (r: usize)
        ensures
            r == self.spec_current_index(),
    {
        self.current_index
    }
}

/// After a stop, no note that was playing before it may sound any more.
pub proof fn law_stop_all_silences_playing_notes(
    before: PocketTetoEngine,
    after: PocketTetoEngine,
    playback: NotePlayback,
)
    requires
        after.spec_generation() == next_generation(before.spec_generation()),
        playback_is_current(before.spec_generation(), playback),
    ensures
        !playback_is_current(after.spec_generation(), playback),
{
}

/// The queue position after `n` note-ons that started at `index`.
pub open spec fn index_after_notes(index: int, count: int, n: nat) -> int
    decreases n,
{
    if n == 0 {
        index
    } else {
        next_syllable(index_after_notes(index, count, (n - 1) as nat), count)
    }
}

/// Round robin: `n` note-ons that start at position `index` of a queue of
/// `count` syllables end at position `(index + n) % count`, so every
/// `count` consecutive note-ons play each syllable exactly once.
pub proof fn law_round_robin(index: int, count: int, n: nat)
    requires
        0 <= index < count,
    ensures
        index_after_notes(index, count, n) == (index + n) % count,
        forall|k1: int, k2: int|
            0 <= k1 < k2 < count ==> #[trigger] ((index + k1) % count) != #[trigger] ((index + k2)
                % count),
    decreases n,
{
    if n > 0 {
        law_round_robin(index, count, (n - 1) as nat);
        vstd::arithmetic::div_mod::lemma_add_mod_noop_right(1, index + n - 1, count);
    } else {
        vstd::arithmetic::div_mod::lemma_small_mod(index as nat, count as nat);
    }
    assert forall|k1: int, k2: int|
        0 <= k1 < k2 < count implies #[trigger] ((index + k1) % count) != #[trigger] ((index + k2)
        % count) by {
        vstd::arithmetic::div_mod::lemma_fundamental_div_mod(index + k1, count);
        vstd::arithmetic::div_mod::lemma_fundamental_div_mod(index + k2, count);
        vstd::arithmetic::div_mod::lemma_mod_bound(index + k1, count);
        vstd::arithmetic::div_mod::lemma_mod_bound(index + k2, count);
        if (index + k1) % count == (index + k2) % count {
            let q1 = (index + k1) / count;
            let q2 = (index + k2) / count;
            assert(count * (q2 - q1) == k2 - k1) by (nonlinear_arith)
                requires
                    index + k1 == count * q1 + (index + k1) % count,
                    index + k2 == count * q2 + (index + k2) % count,
                    (index + k1) % count == (index + k2) % count,
            ;
            assert(false) by (nonlinear_arith)
                requires
                    count * (q2 - q1) == k2 - k1,
                    0 < k2 - k1 < count,
            ;
        }
    }
}

/// The note and velocity that a message asks the engine to play: only
/// note-ons reach it.
pub open spec fn engine_note(msg: MidiMessage) -> Option<(u8, u8)> {
    match msg {
        MidiMessage::NoteOn { key, vel } => Some((key, vel)),
        _ => None,
    }
}

/// The note and velocity of a note-on message, or `None` for any other
/// message.
pub fn note_on_fields(msg: MidiMessage) -> (r: Option<(u8, u8)>)
    ensures
        r == engine_note(msg),
        !(msg is NoteOn) ==> r is None,
        msg matches MidiMessage::NoteOn { key, vel } ==> r == Some((key, vel)),
{
    match msg {
        MidiMessage::NoteOn { key, vel } => Some((key, vel)),
        _ => None,
    }
}

/// `Sender::send`: queues `value` for the engine thread and gives back the
/// value that was handed to the channel. Whether it arrives depends on the
/// receiving thread, so that is not stated; a failure (the engine has
/// stopped) is ignored.
#[verifier::external_body]
fn send_to_engine(sender: &Sender<(u8, u8)>, value: (u8, u8)) -> (sent: (u8, u8))
    ensures
        sent == value,
{
    let _ = sender.send(value);
    value
}

/// The output connection of the voice engine: it forwards note-ons to the
/// engine thread.
#[derive(Clone)]
pub struct PocketTetoOutputConnection {
    sender: Sender<(u8, u8)>,
}

impl PocketTetoOutputConnection {
    /// A connection that sends to the engine through `sender`.
    pub fn new(sender: Sender<(u8, u8)>) -> (r: Self)
        ensures
            r.spec_sender() == sender,
    {
        PocketTetoOutputConnection { sender }
    }

    pub closed spec fn spec_sender(&self) -> Sender<(u8, u8)> {
        self.sender
    }

    /// Forwards the note and velocity of a note-on to the engine, on any
    /// channel; other messages are dropped. The result is the pair handed to
    /// the engine's channel, if any.
    pub fn midi_event(&self, _channel: u8, msg: MidiMessage) -> (forwarded: Option<(u8, u8)>)
        ensures
            forwarded == engine_note(msg),
            !(msg is NoteOn) ==> forwarded is None,
            msg matches MidiMessage::NoteOn { key, vel } ==> forwarded == Some((key, vel)),
    {
        match note_on_fields(msg) {
            Some(pair) => Some(send_to_engine(&self.sender, pair)),
            None => None,
        }
    }

    /// The request to silence the connection's output. It does nothing: the
    /// engine cannot stop the syllables it has started.
    pub fn stop_all(&self) {
    }
}

/// Only note-ons reach the engine, with the key and velocity played; a
/// release, a control change or any other message is never forwarded.
pub proof fn law_only_note_ons_reach_the_engine(msg: MidiMessage)
    ensures
        !(msg is NoteOn) ==> (engine_note(msg) is None),
        msg matches MidiMessage::NoteOn { key, vel } ==> engine_note(msg) == Some((key, vel)),
        engine_note(msg) matches Some(p) ==> msg == (MidiMessage::NoteOn { key: p.0, vel: p.1 }),
{
}

} // verus!
