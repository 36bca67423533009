# neothesia_logic

The verified core of a piano practice application, written in Verus.

- `src/config.rs`: the versioned settings sections and their defaults.
- `src/midi.rs`: MIDI channel messages and a Standard MIDI File as plain values.
- `src/recorder.rs`: the free-play recorder (record, release held notes on stop,
  turn the take into a single-track MIDI file at 960 ticks per second).
- `src/preview.rs`: the playback decisions of the preview of a take and the
  tracks it hides.
- `src/freeplay.rs`: what the controls of the free-play bar decide (record,
  save, play, seek, instrument choice).
- `src/pocket_teto.rs`: the syllable voice engine's round-robin queue and its
  output connection.
- `src/oto.rs`: decoding and reading the `oto.ini` timing file of a voice bank.
- `src/encoder.rs`: sample rate and frame size choices of the audio encoder.
- `src/platform.rs`: standard-library types and calls that the library uses.

`app/` holds what Verus does not see: serde forms of the settings, conversion
to and from `midly`, saving files, and the audio engine built on `rodio`.
