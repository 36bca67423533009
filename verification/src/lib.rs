//! Verified core of a piano practice application: the persisted settings
//! model, the free-play MIDI recorder, the decisions of the syllable voice
//! engine, and the parameter choices of the audio encoder.

pub mod config;
pub mod encoder;
pub mod freeplay;
pub mod midi;
pub mod oto;
pub mod platform;
pub mod pocket_teto;
pub mod preview;
pub mod recorder;
