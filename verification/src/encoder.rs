//! The parameter choices that the audio encoder makes from what the codec
//! reports it supports.

use vstd::prelude::*;

verus! {

/// The sample rate chosen from the rates a codec supports: 44 100 Hz when it
/// is supported or when the codec reports none, else the first rate reported.
pub open spec fn chosen_sample_rate(supported: Seq<i32>) -> i32 {
    if supported.len() == 0 || supported.contains(44100) {
        44100
    } else {
        supported[0]
    }
}

/// Picks the encoder's sample rate: 44 100 Hz is preferred, otherwise the
/// codec's first supported rate. An empty list stands for a codec that
/// reports no rates (or a failed query) and keeps 44 100 Hz.
pub fn select_sample_rate(supported: &[i32]) -> (r: i32)
    ensures
        r == chosen_sample_rate(supported@),
        supported@.contains(44100) ==> r == 44100,
        supported@.len() == 0 ==> r == 44100,
        supported@.len() > 0 && !supported@.contains(44100) ==> r == supported@[0],
{
    let mut sample_rate: i32 = 44100;
    let mut i: usize = 0;
    while i < supported.len()
        invariant
            i <= supported@.len(),
            forall|j: int| 0 <= j < i ==> supported@[j] != 44100,
            i > 0 ==> sample_rate == supported@[0],
            i == 0 ==> sample_rate == 44100,
        decreases supported@.len() - i,
    {
        let rate = supported[i];
        if rate == 44100 {
            assert(supported@.contains(44100));
            return 44100;
        }
        if i == 0 {
            sample_rate = rate;
        }
        i += 1;
    }
    assert(!supported@.contains(44100)) by {
        if supported@.contains(44100) {
            let j = choose|j: int| 0 <= j < supported@.len() && supported@[j] == 44100;
            assert(supported@[j] != 44100);
        }
    }
    sample_rate
}

/// The number of samples per audio frame: 10 000 for a codec that accepts
/// frames of any size, else the codec's own frame size.
pub fn audio_frame_samples(variable_frame_size: bool, codec_frame_size: i32) -> (r: i32)
    ensures
        variable_frame_size ==> r == 10000,
        !variable_frame_size ==> r == codec_frame_size,
{
    if variable_frame_size {
        10000
    } else {
        codec_frame_size
    }
}

/// Picks the encoder's sample format: the first format the codec reports,
/// else `fallback` (planar 32-bit float) when it reports none.
pub fn select_sample_format(supported: &[i32], fallback: i32) -> (r: i32)
    ensures
        supported@.len() > 0 ==> r == supported@[0],
        supported@.len() == 0 ==> r == fallback,
{
    if supported.len() > 0 {
        supported[0]
    } else {
        fallback
    }
}

/// The chosen rate is 44 100 Hz exactly when the codec supports it or
/// reports no rates; otherwise it is the first rate the codec reports.
pub proof fn law_sample_rate_choice(supported: Seq<i32>)
    ensures
        supported.contains(44100) ==> chosen_sample_rate(supported) == 44100,
        supported.len() == 0 ==> chosen_sample_rate(supported) == 44100,
        supported.len() > 0 && !supported.contains(44100) ==> chosen_sample_rate(supported)
            == supported[0],
        supported.len() > 0 ==> supported.contains(chosen_sample_rate(supported)) || chosen_sample_rate(
            supported,
        ) == 44100,
{
    if supported.len() > 0 {
        assert(supported.contains(supported[0]));
    }
}

} // verus!
