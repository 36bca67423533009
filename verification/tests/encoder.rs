use neothesia_logic::encoder::select_sample_format;
use neothesia_logic::encoder::{audio_frame_samples, select_sample_rate};

#[test]
fn sample_rate_prefers_44100() {
    assert_eq!(select_sample_rate(&[48000, 44100, 22050]), 44100);
    assert_eq!(select_sample_rate(&[44100]), 44100);
    assert_eq!(select_sample_rate(&[48000, 96000]), 48000);
    assert_eq!(select_sample_rate(&[]), 44100);
}

#[test]
fn frame_size() {
    assert_eq!(audio_frame_samples(true, 1024), 10000);
    assert_eq!(audio_frame_samples(false, 1024), 1024);
}

#[test]
fn sample_format_is_first_supported() {
    assert_eq!(select_sample_format(&[1, 8], 8), 1);
    assert_eq!(select_sample_format(&[], 8), 8);
}
