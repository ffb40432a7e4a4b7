use voice_to_text::resample::{resampled_len, tap_at, Tap, TARGET_SAMPLE_RATE};

#[test]
fn downsample_48k_to_16k() {
    let n = resampled_len(48000, 48000, TARGET_SAMPLE_RATE);
    assert_eq!(n, 16000);
    assert_eq!(tap_at(48000, 48000, 16000, 0), Tap { lo: 0, hi: 1, frac: 0 });
    assert_eq!(tap_at(48000, 48000, 16000, 15999), Tap { lo: 47997, hi: 47998, frac: 0 });
}

#[test]
fn output_length_is_floor() {
    assert_eq!(resampled_len(7, 44100, 16000), 2);
    assert_eq!(resampled_len(0, 48000, 16000), 0);
    assert_eq!(resampled_len(3, 8000, 16000), 6);
    assert_eq!(resampled_len(44100, 44100, 16000), 16000);
}

#[test]
fn same_rate_reads_input_in_place() {
    let n = resampled_len(10, 16000, 16000);
    assert_eq!(n, 10);
    for i in 0..n {
        let t = tap_at(10, 16000, 16000, i);
        assert_eq!(t.lo, i);
        assert_eq!(t.frac, 0);
    }
    assert_eq!(tap_at(10, 16000, 16000, 9), Tap { lo: 9, hi: 9, frac: 0 });
}

#[test]
fn upsample_interpolates_and_clamps_tail() {
    assert_eq!(tap_at(3, 8000, 16000, 1), Tap { lo: 0, hi: 1, frac: 8000 });
    assert_eq!(tap_at(3, 8000, 16000, 4), Tap { lo: 2, hi: 2, frac: 0 });
    assert_eq!(tap_at(3, 8000, 16000, 5), Tap { lo: 2, hi: 2, frac: 0 });
}

#[test]
fn fractional_weights_at_44k() {
    // i = 1: source position 44100 / 16000 = 2 + 12100 / 16000.
    assert_eq!(tap_at(100, 44100, 16000, 1), Tap { lo: 2, hi: 3, frac: 12100 });
}
