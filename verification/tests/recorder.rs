use rust_transcriber::audio::AudioRecorder;
use rust_transcriber::audio::CaptureError;
use rust_transcriber::audio::DeviceProbe;
use rust_transcriber::audio::RecorderState;

#[test]
fn start_no_device_fails_and_stays_idle() {
    let mut rec = AudioRecorder::new();
    let r = rec.start_recording(DeviceProbe::NoDevice, 100);
    assert_eq!(r, Err(CaptureError::NoInputDevice));
    assert!(matches!(rec.state, RecorderState::Idle));
}

#[test]
fn start_stream_failure_fails_and_stays_idle() {
    let mut rec = AudioRecorder::new();
    let r = rec.start_recording(DeviceProbe::StreamFailed, 100);
    assert_eq!(r, Err(CaptureError::StreamError));
    assert!(matches!(rec.state, RecorderState::Idle));
}

#[test]
fn start_rejects_zero_channel_format() {
    let mut rec = AudioRecorder::new();
    let r = rec.start_recording(DeviceProbe::Opened { sample_rate: 8000, channels: 0 }, 100);
    assert_eq!(r, Err(CaptureError::StreamError));
    assert!(matches!(rec.state, RecorderState::Idle));
}

#[test]
fn start_opens_fresh_recording() {
    let mut rec = AudioRecorder::new();
    let r = rec.start_recording(DeviceProbe::Opened { sample_rate: 8000, channels: 1 }, 42);
    assert_eq!(r, Ok(()));
    match &rec.state {
        RecorderState::Recording { path, sample_rate, channels, started_at, samples, dropped } => {
            assert_eq!(path, "recorded_audio_42_0.wav");
            assert_eq!(*sample_rate, 8000);
            assert_eq!(*channels, 1);
            assert_eq!(*started_at, 42);
            assert!(samples.is_empty());
            assert_eq!(*dropped, 0);
        },
        RecorderState::Idle => panic!("recorder should be recording"),
    }
    assert_eq!(rec.next_id, 1);
}

#[test]
fn start_twice_keeps_one_backing_file() {
    let mut rec = AudioRecorder::new();
    rec.start_recording(DeviceProbe::Opened { sample_rate: 8000, channels: 1 }, 42).unwrap();
    let first_path = match &rec.state {
        RecorderState::Recording { path, .. } => path.clone(),
        RecorderState::Idle => panic!("recorder should be recording"),
    };
    // A second start without an intervening stop succeeds and changes nothing.
    let r = rec.start_recording(DeviceProbe::Opened { sample_rate: 44100, channels: 2 }, 99);
    assert_eq!(r, Ok(()));
    match &rec.state {
        RecorderState::Recording { path, sample_rate, .. } => {
            assert_eq!(*path, first_path);
            assert_eq!(*sample_rate, 8000);
        },
        RecorderState::Idle => panic!("recorder should still be recording"),
    }
    assert_eq!(rec.next_id, 1);
}

#[test]
fn stop_while_idle_returns_nothing() {
    let mut rec = AudioRecorder::new();
    assert!(rec.stop_recording().is_none());
    assert!(matches!(rec.state, RecorderState::Idle));
    assert_eq!(rec.next_id, 0);
}

#[test]
fn stop_finalizes_wav_artifact() {
    let mut rec = AudioRecorder::new();
    rec.start_recording(DeviceProbe::Opened { sample_rate: 8000, channels: 1 }, 7).unwrap();
    let samples: Vec<i16> = vec![0, 1, -1, 2, -2, 3, -3, 0];
    rec.write_input_data(&samples, true);
    let artifact = rec.stop_recording().expect("a live recording must yield an artifact");
    assert!(matches!(rec.state, RecorderState::Idle));
    assert_eq!(artifact.path, "recorded_audio_7_0.wav");
    assert_eq!(artifact.channels, 1);
    assert_eq!(artifact.sample_rate, 8000);
    assert_eq!(artifact.bits_per_sample, 16);
    // 44-byte PCM header plus two bytes per sample.
    assert_eq!(artifact.data.len(), 44 + 2 * samples.len());
    assert_eq!(&artifact.data[0..4], b"RIFF");
    assert_eq!(&artifact.data[8..12], b"WAVE");
    // First sample (0) little-endian right after the header, then 1.
    assert_eq!(&artifact.data[44..48], &[0, 0, 1, 0]);
}

#[test]
fn contended_writer_drops_and_counts() {
    let mut rec = AudioRecorder::new();
    rec.start_recording(DeviceProbe::Opened { sample_rate: 8000, channels: 1 }, 7).unwrap();
    rec.write_input_data(&[1, 2, 3], false);
    rec.write_input_data(&[4, 5], true);
    match &rec.state {
        RecorderState::Recording { samples, dropped, .. } => {
            assert_eq!(samples, &vec![4i16, 5]);
            assert_eq!(*dropped, 3);
        },
        RecorderState::Idle => panic!("recorder should be recording"),
    }
}

#[test]
fn partial_frames_are_dropped() {
    let mut rec = AudioRecorder::new();
    rec.start_recording(DeviceProbe::Opened { sample_rate: 8000, channels: 2 }, 7).unwrap();
    // Three samples do not fill whole two-channel frames.
    rec.write_input_data(&[1, 2, 3], true);
    match &rec.state {
        RecorderState::Recording { samples, dropped, .. } => {
            assert!(samples.is_empty());
            assert_eq!(*dropped, 3);
        },
        RecorderState::Idle => panic!("recorder should be recording"),
    }
}

#[test]
fn rapid_cycles_yield_distinct_artifacts() {
    let mut rec = AudioRecorder::new();
    // Both cycles within the same timestamp second.
    rec.start_recording(DeviceProbe::Opened { sample_rate: 8000, channels: 1 }, 5).unwrap();
    rec.write_input_data(&[1, 2], true);
    let first = rec.stop_recording().unwrap();
    rec.start_recording(DeviceProbe::Opened { sample_rate: 8000, channels: 1 }, 5).unwrap();
    rec.write_input_data(&[3, 4], true);
    let second = rec.stop_recording().unwrap();
    assert_eq!(first.path, "recorded_audio_5_0.wav");
    assert_eq!(second.path, "recorded_audio_5_1.wav");
    assert_ne!(first.path, second.path);
    assert_ne!(first.data, second.data);
}
