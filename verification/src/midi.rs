//! The library's own model of MIDI channel messages and of a Standard MIDI
//! File, holding as plain integers what `midly` stores in its restricted
//! integer types.

use vstd::prelude::*;

verus! {

/// A MIDI channel message. Seven-bit fields are held in a `u8`, the
/// fourteen-bit pitch bend in a `u16`.
#[derive(Clone, Copy, PartialEq, Eq, Debug, Structural)]
pub enum MidiMessage {
    NoteOff { key: u8, vel: u8 },
    NoteOn { key: u8, vel: u8 },
    Aftertouch { key: u8, vel: u8 },
    Controller { controller: u8, value: u8 },
    ProgramChange { program: u8 },
    ChannelAftertouch { vel: u8 },
    PitchBend { bend: u16 },
}

/// How the tracks of a MIDI file relate to each other.
#[derive(Clone, Copy, PartialEq, Eq, Debug, Structural)]
pub enum Format {
    SingleTrack,
    Parallel,
    Sequential,
}

/// The time base of a MIDI file: metrical timing counts ticks per beat.
#[derive(Clone, Copy, PartialEq, Eq, Debug, Structural)]
pub enum Timing {
    Metrical(u16),
}

/// The header chunk of a MIDI file.
#[derive(Clone, Copy, PartialEq, Eq, Debug, Structural)]
pub struct Header {
    pub format: Format,
    pub timing: Timing,
}

/// The meta events that the recorder writes.
#[derive(Clone, Copy, PartialEq, Eq, Debug, Structural)]
pub enum MetaMessage {
    /// Microseconds per beat.
    Tempo(u32),
    /// Numerator, denominator exponent, clocks per click, 32nd notes per quarter.
    TimeSignature(u8, u8, u8, u8),
    EndOfTrack,
}

/// What a track event carries.
#[derive(Clone, Copy, PartialEq, Eq, Debug, Structural)]
pub enum TrackEventKind {
    Midi { channel: u8, message: MidiMessage },
    Meta(MetaMessage),
}

/// One event of a track, preceded by its delta time in ticks.
#[derive(Clone, Copy, PartialEq, Eq, Debug, Structural)]
pub struct TrackEvent {
    pub delta: u32,
    pub kind: TrackEventKind,
}

/// A Standard MIDI File: a header and its tracks.
#[derive(Clone, Debug)]
pub struct Smf {
    pub header: Header,
    pub tracks: Vec<Vec<TrackEvent>>,
}

/// Lossy conversion of a `u8` into a MIDI channel (`midly::num::u4`): the
/// top four bits are masked off.
#[verifier::external_body]
pub(crate) fn channel_from_u8(raw: u8) -> (r: u8)
    ensures
        r == raw & 0x0fu8,
{
    midly::num::u4::from(raw).as_int()
}

/// Lossy conversion of a `u32` into a variable-length delta time
/// (`midly::num::u28`): the top four bits are masked off.
#[verifier::external_body]
pub(crate) fn delta_from_u32(raw: u32) -> (r: u32)
    ensures
        r == raw & 0x0fff_ffffu32,
{
    midly::num::u28::from(raw).as_int()
}


} // verus!
