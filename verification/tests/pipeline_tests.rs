use quackplay::config::{select_output_config, OutputConfig};
use quackplay::cursor::PlaybackCursor;
use quackplay::decode::decode_frames;
use quackplay::driver::fill_output;
use quackplay::error::AudioError;
use quackplay::frame::Frame;
use quackplay::pipeline::{playback_duration_millis, prepare_playback};
use quackplay::resample::resample;

fn frames(pairs: &[(i32, i32)]) -> Vec<Frame> {
    pairs
        .iter()
        .map(|&(left, right)| Frame { left, right })
        .collect()
}

#[test]
fn unity_resampling_is_identity() {
    let src = frames(&[(10, -10), (20, -20), (-30, 30), (0, 5)]);
    let out = resample(&src, 44100, 44100);
    assert_eq!(out.len(), src.len());
    for (a, b) in src.iter().zip(out.iter()) {
        assert_eq!(a, b);
    }
}

#[test]
fn unity_resampling_identity_at_low_rate() {
    let src = frames(&[(i32::MAX, i32::MIN), (1, -1)]);
    let out = resample(&src, 1, 1);
    assert_eq!(out, src);
}

#[test]
fn length_scales_with_rate_ratio() {
    // Output length n must satisfy l * ro <= n * ri < l * ro + ri.
    let cases: &[(usize, u32, u32)] = &[
        (3, 8000, 11025),
        (100, 44100, 8000),
        (7, 3, 10),
        (1, 48000, 44100),
        (16000, 16000, 8000),
    ];
    for &(l, ri, ro) in cases {
        let src = frames(&vec![(5, -5); l]);
        let out = resample(&src, ri, ro);
        let n = out.len() as u64;
        let lo = (l as u64) * (ro as u64);
        assert!(n * (ri as u64) >= lo, "too short: l={l} ri={ri} ro={ro} n={n}");
        assert!(
            n * (ri as u64) < lo + (ri as u64),
            "too long: l={l} ri={ri} ro={ro} n={n}"
        );
    }
}

#[test]
fn doubling_the_rate_interpolates_midpoints() {
    let src = frames(&[(10, -10), (20, -20)]);
    let out = resample(&src, 1, 2);
    // Positions 0, 1/2, 1, 3/2; the final half step blends toward silence.
    let expect = frames(&[(10, -10), (15, -15), (20, -20), (10, -10)]);
    assert_eq!(out, expect);
}

#[test]
fn resampling_empty_input_is_empty() {
    let src: Vec<Frame> = Vec::new();
    assert!(resample(&src, 8000, 44100).is_empty());
    assert!(resample(&src, 44100, 8000).is_empty());
    assert!(resample(&src, 123, 123).is_empty());
}

#[test]
fn cursor_yields_each_frame_once_then_stays_exhausted() {
    let src = frames(&[(1, 2), (3, 4), (5, 6)]);
    let mut cursor = PlaybackCursor::new(src.clone());
    for expected in &src {
        assert!(!cursor.exhausted());
        assert_eq!(cursor.next_frame(), Some(*expected));
    }
    for _ in 0..10 {
        assert!(cursor.exhausted());
        assert_eq!(cursor.next_frame(), None);
        assert_eq!(cursor.remaining(), 0);
    }
}

#[test]
fn exhausted_cursor_fills_slot_with_silence() {
    let mut cursor = PlaybackCursor::new(frames(&[(9, 9)]));
    assert_eq!(cursor.next_frame(), Some(Frame { left: 9, right: 9 }));
    let mut slot = vec![123i32; 8];
    fill_output(&mut cursor, &mut slot);
    assert_eq!(slot, vec![0i32; 8]);
}

#[test]
fn driver_pads_with_silence_after_the_last_frame() {
    let mut cursor = PlaybackCursor::new(frames(&[(11, -11)]));
    let mut slot = vec![55i32; 6];
    fill_output(&mut cursor, &mut slot);
    assert_eq!(slot, vec![11, -11, 0, 0, 0, 0]);
    assert!(cursor.exhausted());
}

#[test]
fn driver_over_empty_buffer_emits_only_silence() {
    let mut cursor = PlaybackCursor::new(Vec::new());
    let mut slot = vec![7i32; 10];
    fill_output(&mut cursor, &mut slot);
    assert_eq!(slot, vec![0i32; 10]);
}

#[test]
fn decode_accepts_stereo_and_pairs_samples() {
    let decoded = decode_frames(2, 8000, vec![1, -1, 2, -2]).unwrap();
    assert_eq!(decoded.sample_rate, 8000);
    assert_eq!(decoded.frames, frames(&[(1, -1), (2, -2)]));
}

#[test]
fn decode_of_empty_source_is_empty() {
    let decoded = decode_frames(2, 8000, Vec::new()).unwrap();
    assert_eq!(decoded.sample_rate, 8000);
    assert!(decoded.frames.is_empty());
}

#[test]
fn decode_rejects_mono_source() {
    assert_eq!(
        decode_frames(1, 8000, vec![1, 2]),
        Err(AudioError::UnsupportedChannelLayout)
    );
}

#[test]
fn decode_rejects_surround_source() {
    assert_eq!(
        decode_frames(6, 8000, vec![1, 2]),
        Err(AudioError::UnsupportedChannelLayout)
    );
}

#[test]
fn decode_rejects_zero_sample_rate() {
    assert_eq!(decode_frames(2, 0, vec![1, 2]), Err(AudioError::Decode));
}

#[test]
fn decode_rejects_truncated_final_frame() {
    assert_eq!(
        decode_frames(2, 8000, vec![1, 2, 3]),
        Err(AudioError::Decode)
    );
}

#[test]
fn selects_first_stereo_config_with_highest_rate() {
    let configs = vec![
        OutputConfig { channels: 1, max_sample_rate: 96000 },
        OutputConfig { channels: 2, max_sample_rate: 44100 },
        OutputConfig { channels: 2, max_sample_rate: 48000 },
        OutputConfig { channels: 2, max_sample_rate: 48000 },
        OutputConfig { channels: 4, max_sample_rate: 192000 },
    ];
    assert_eq!(select_output_config(&configs), Some(2));
}

#[test]
fn selects_none_without_a_stereo_config() {
    let configs = vec![
        OutputConfig { channels: 1, max_sample_rate: 96000 },
        OutputConfig { channels: 6, max_sample_rate: 48000 },
    ];
    assert_eq!(select_output_config(&configs), None);
    assert_eq!(select_output_config(&Vec::new()), None);
}

#[test]
fn duration_is_frames_over_rate_rounded_up() {
    assert_eq!(playback_duration_millis(16000, 16000), 1000);
    assert_eq!(playback_duration_millis(0, 8000), 0);
    assert_eq!(playback_duration_millis(1, 8000), 1);
    assert_eq!(playback_duration_millis(44100, 44100), 1000);
    assert_eq!(playback_duration_millis(44101, 44100), 1001);
}

#[test]
fn end_to_end_constant_source_doubles_in_length() {
    // One second of 8000 Hz stereo at constant amplitude (0.5, -0.5) in a
    // signed 16-bit fixed-point scale, resampled to 16000 Hz.
    let half = 16384i32;
    let mut samples = Vec::with_capacity(16000);
    for _ in 0..8000 {
        samples.push(half);
        samples.push(-half);
    }
    let configs = vec![
        OutputConfig { channels: 2, max_sample_rate: 16000 },
        OutputConfig { channels: 1, max_sample_rate: 44100 },
    ];
    let plan = prepare_playback(2, 8000, samples, &configs).unwrap();
    assert_eq!(plan.config_index, 0);
    assert_eq!(plan.target_rate, 16000);
    assert_eq!(plan.duration_millis, 1000);

    let mut cursor = plan.cursor;
    let mut slot = vec![0i32; 4];
    fill_output(&mut cursor, &mut slot);
    assert_eq!(slot, vec![half, -half, half, -half]);

    // Interpolating a constant signal reproduces the constant everywhere but
    // at the very last output tick, which blends toward silence.
    let mut produced = vec![slot[0..2].to_vec(), slot[2..4].to_vec()]
        .into_iter()
        .map(|c| (c[0], c[1]))
        .collect::<Vec<_>>();
    while let Some(f) = cursor.next_frame() {
        produced.push((f.left, f.right));
    }
    assert_eq!(produced.len(), 16000);
    for &(l, r) in &produced[..15999] {
        assert_eq!((l, r), (half, -half));
    }
    assert_eq!(produced[15999], (half / 2, -half / 2));
}

#[test]
fn prepare_playback_reports_missing_stereo_config() {
    let configs = vec![OutputConfig { channels: 1, max_sample_rate: 48000 }];
    assert!(matches!(
        prepare_playback(2, 8000, vec![1, 2], &configs),
        Err(AudioError::DeviceConfig)
    ));
}

#[test]
fn prepare_playback_reports_mono_source() {
    let configs = vec![OutputConfig { channels: 2, max_sample_rate: 48000 }];
    assert!(matches!(
        prepare_playback(1, 8000, vec![1, 2], &configs),
        Err(AudioError::UnsupportedChannelLayout)
    ));
}

#[test]
fn prepare_playback_of_empty_source_is_empty_and_silent() {
    let configs = vec![OutputConfig { channels: 2, max_sample_rate: 48000 }];
    let plan = prepare_playback(2, 8000, Vec::new(), &configs).unwrap();
    assert_eq!(plan.duration_millis, 0);
    let mut cursor = plan.cursor;
    assert!(cursor.exhausted());
    let mut slot = vec![42i32; 4];
    fill_output(&mut cursor, &mut slot);
    assert_eq!(slot, vec![0i32; 4]);
}
