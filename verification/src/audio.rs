//! Audio capture sessions.
//!
//! An [`AudioRecorder`] owns the lifecycle of one recording: `Idle` until
//! a press opens the default input device, then `Recording` while the
//! device callback feeds sample buffers in, then `Idle` again once the
//! recording is finalized into a WAV artifact.  The unverified shell owns
//! the actual device stream; it reports the outcome of opening the device
//! as a [`DeviceProbe`] and forwards each captured buffer, converted to
//! 16-bit samples, to [`AudioRecorder::write_input_data`].
//!
//! Every transition is specified against the recorder's mathematical view
//! ([`RecorderView`]) by the spec functions [`spec_start`], [`spec_feed`]
//! and [`spec_stop`], so that the laws about the session lifecycle are
//! stated and proved over those functions.

use vstd::prelude::*;
use vstd::string::StringExecFns;
use crate::decimal::dec_digits;
use crate::decimal::u64_to_string;

verus! {

/// Samples are capped so that the WAV data chunk size (two bytes per
/// sample) always fits the 32-bit size fields of the container.
pub const MAX_SAMPLES: usize = 0x70000000;

/// Why a recording could not start.
#[derive(Clone, Copy, Debug, PartialEq, Eq, Structural)]
pub enum CaptureError {
    /// No default input device could be enumerated.
    NoInputDevice,
    /// The device could not be opened at its reported native format.
    StreamError,
}

/// The outcome of probing and opening the default input device, reported
/// by the unverified shell.
#[derive(Clone, Copy, Debug, PartialEq, Eq, Structural)]
pub enum DeviceProbe {
    /// No default input device is enumerable.
    NoDevice,
    /// A device exists but its stream could not be opened.
    StreamFailed,
    /// The stream is open at the device's native rate and channel count.
    Opened { sample_rate: u32, channels: u16 },
}

/// A finalized recording: the WAV bytes to be persisted under `path`.
#[derive(Debug)]
pub struct AudioArtifact {
    /// File name the recording is persisted under.
    pub path: String,
    /// Number of interleaved channels.
    pub channels: u16,
    /// Sample rate in Hertz.
    pub sample_rate: u32,
    /// Bit depth of the normalized samples.
    pub bits_per_sample: u16,
    /// The complete WAV container, header and sample data.
    pub data: Vec<u8>,
}

/// The state of a capture session.
#[derive(Debug)]
pub enum RecorderState {
    /// No recording in progress.
    Idle,
    /// A device stream is open and sample buffers are being collected.
    Recording {
        /// File name the artifact will be persisted under.
        path: String,
        /// Native sample rate of the open stream.
        sample_rate: u32,
        /// Native channel count of the open stream.
        channels: u16,
        /// Timestamp passed when the recording started.
        started_at: u64,
        /// Normalized samples collected so far.
        samples: Vec<i16>,
        /// Count of samples lost to writer contention or overflow.
        dropped: u64,
    },
}

/// Owns at most one live capture session and numbers its artifacts.
#[derive(Debug)]
pub struct AudioRecorder {
    /// Current session state.
    pub state: RecorderState,
    /// Counter consumed by the next recording; each started recording
    /// takes a fresh value, which makes backing file names distinct.
    pub next_id: u64,
}

/// Mathematical view of [`RecorderState`].
pub enum RecView {
    /// No recording in progress.
    Idle,
    /// A recording in progress.
    Recording {
        /// File name of the artifact in the making.
        path: Seq<char>,
        /// Native sample rate of the open stream.
        sample_rate: u32,
        /// Native channel count of the open stream.
        channels: u16,
        /// Timestamp at which the recording started.
        started_at: u64,
        /// Samples collected so far.
        samples: Seq<i16>,
        /// Count of samples lost to contention or overflow.
        dropped: u64,
    },
}

/// Mathematical view of [`AudioRecorder`].
pub struct RecorderView {
    /// Current session state.
    pub state: RecView,
    /// Counter consumed by the next recording.
    pub next_id: u64,
}

/// Mathematical view of [`AudioArtifact`].
pub struct ArtifactView {
    /// File name the recording is persisted under.
    pub path: Seq<char>,
    /// Number of interleaved channels.
    pub channels: u16,
    /// Sample rate in Hertz.
    pub sample_rate: u32,
    /// Bit depth of the normalized samples.
    pub bits_per_sample: u16,
    /// The complete WAV container bytes.
    pub data: Seq<u8>,
}

impl View for AudioRecorder {
    type V = RecorderView;

    open spec fn view(&self) -> RecorderView {
        RecorderView {
            state: match self.state {
                RecorderState::Idle => RecView::Idle,
                RecorderState::Recording {
                    path,
                    sample_rate,
                    channels,
                    started_at,
                    samples,
                    dropped,
                } => RecView::Recording {
                    path: path@,
                    sample_rate,
                    channels,
                    started_at,
                    samples: samples@,
                    dropped,
                },
            },
            next_id: self.next_id,
        }
    }
}

impl View for AudioArtifact {
    type V = ArtifactView;

    open spec fn view(&self) -> ArtifactView {
        ArtifactView {
            path: self.path@,
            channels: self.channels,
            sample_rate: self.sample_rate,
            bits_per_sample: self.bits_per_sample,
            data: self.data@,
        }
    }
}

/// A device format the recorder accepts: at least one channel, a nonzero
/// rate, and a byte rate that fits the WAV header's 32-bit fields.
pub open spec fn valid_format(sample_rate: u32, channels: u16) -> bool {
    &&& channels >= 1
    &&& sample_rate >= 1
    &&& 2 * (channels as int) * (sample_rate as int) <= u32::MAX
}

/// Well-formedness of a recorder view: a live recording has an accepted
/// format and a sample buffer that stays within the WAV size cap, whole
/// frames only.
pub open spec fn rec_inv(v: RecorderView) -> bool {
    match v.state {
        RecView::Idle => true,
        RecView::Recording { sample_rate, channels, samples, .. } => {
            &&& valid_format(sample_rate, channels)
            &&& samples.len() <= MAX_SAMPLES
            &&& samples.len() % (channels as nat) == 0
        },
    }
}

/// The file name of the artifact started at time `started_at` with
/// counter value `id`.
pub open spec fn artifact_path(started_at: u64, id: u64) -> Seq<char> {
    "recorded_audio_"@ + dec_digits(started_at as nat) + "_"@ + dec_digits(id as nat) + ".wav"@
}

/// What `start_recording` does to the recorder view, and what it returns.
pub open spec fn spec_start(v: RecorderView, probe: DeviceProbe, now: u64) -> (RecorderView, Result<
    (),
    CaptureError,
>) {
    if v.state is Recording {
        (v, Ok(()))
    } else {
        match probe {
            DeviceProbe::NoDevice => (v, Err(CaptureError::NoInputDevice)),
            DeviceProbe::StreamFailed => (v, Err(CaptureError::StreamError)),
            DeviceProbe::Opened { sample_rate, channels } => {
                if valid_format(sample_rate, channels) {
                    (
                        RecorderView {
                            state: RecView::Recording {
                                path: artifact_path(now, v.next_id),
                                sample_rate,
                                channels,
                                started_at: now,
                                samples: Seq::empty(),
                                dropped: 0,
                            },
                            next_id: (v.next_id + 1) as u64,
                        },
                        Ok(()),
                    )
                } else {
                    (v, Err(CaptureError::StreamError))
                }
            },
        }
    }
}

/// Whether an incoming buffer is persisted: the writer must be free, the
/// buffer must hold whole frames, and the capped sample store must have
/// room.
pub open spec fn feed_accepts(v: RecorderView, input: Seq<i16>, writer_available: bool) -> bool {
    match v.state {
        RecView::Idle => false,
        RecView::Recording { channels, samples, .. } => {
            &&& writer_available
            &&& input.len() % (channels as nat) == 0
            &&& samples.len() + input.len() <= MAX_SAMPLES
        },
    }
}

/// What `write_input_data` does to the recorder view: appends the buffer
/// when it is accepted, otherwise counts its samples as dropped
/// (saturating).  Idle recorders are unaffected.
pub open spec fn spec_feed(v: RecorderView, input: Seq<i16>, writer_available: bool) -> RecorderView {
    match v.state {
        RecView::Idle => v,
        RecView::Recording { path, sample_rate, channels, started_at, samples, dropped } => {
            if feed_accepts(v, input, writer_available) {
                RecorderView {
                    state: RecView::Recording {
                        path,
                        sample_rate,
                        channels,
                        started_at,
                        samples: samples + input,
                        dropped,
                    },
                    next_id: v.next_id,
                }
            } else {
                RecorderView {
                    state: RecView::Recording {
                        path,
                        sample_rate,
                        channels,
                        started_at,
                        samples,
                        dropped: if dropped + input.len() <= u64::MAX {
                            (dropped + input.len()) as u64
                        } else {
                            u64::MAX
                        },
                    },
                    next_id: v.next_id,
                }
            }
        },
    }
}

/// What `stop_recording` does to the recorder view, and the artifact it
/// returns: `Idle` yields nothing and changes nothing; a live recording
/// is finalized into the complete WAV bytes of its collected samples.
pub open spec fn spec_stop(v: RecorderView) -> (RecorderView, Option<ArtifactView>) {
    match v.state {
        RecView::Idle => (v, None),
        RecView::Recording { path, sample_rate, channels, started_at, samples, dropped } => {
            (
                RecorderView { state: RecView::Idle, next_id: v.next_id },
                Some(
                    ArtifactView {
                        path,
                        channels,
                        sample_rate,
                        bits_per_sample: 16,
                        data: wav_bytes(channels, sample_rate, samples),
                    },
                ),
            )
        },
    }
}

/// The bytes of the WAV container holding `samples` as 16-bit PCM at the
/// given format, as `hound` writes it.
pub uninterp spec fn wav_bytes(channels: u16, sample_rate: u32, samples: Seq<i16>) -> Seq<u8>;

/// Relies on `hound::WavWriter`: writing 16-bit integer samples at a
/// nonzero rate with 1 or more channels produces a WAV container whose
/// bytes depend only on format and samples; the header is 44 bytes for up
/// to two channels (the PCMWAVEFORMAT layout) and 68 bytes above that
/// (WAVEFORMATEXTENSIBLE), followed by two bytes per sample.  The
/// preconditions keep `hound` off its failure paths: a whole number of
/// frames, a byte rate within `u32`, and a data chunk within `u32`.
#[verifier::external_body]
fn encode_wav(channels: u16, sample_rate: u32, samples: &Vec<i16>) -> (r: Vec<u8>)
    requires
        valid_format(sample_rate, channels),
        samples@.len() <= MAX_SAMPLES,
        samples@.len() % (channels as nat) == 0,
    ensures
        r@ == wav_bytes(channels, sample_rate, samples@),
        r@.len() == (if channels <= 2 {
            44int
        } else {
            68int
        }) + 2 * samples@.len(),
{
    let spec = hound::WavSpec {
        channels,
        sample_rate,
        bits_per_sample: 16,
        sample_format: hound::SampleFormat::Int,
    };
    let mut buf: Vec<u8> = Vec::new();
    let mut writer = hound::WavWriter::new(std::io::Cursor::new(&mut buf), spec).unwrap();
    for s in samples.iter() {
        writer.write_sample(*s).unwrap();
    }
    writer.finalize().unwrap();
    buf
}

/// Build the artifact file name for a recording started at `started_at`
/// with counter value `id`.
fn make_artifact_path(started_at: u64, id: u64) -> (r: String)
    ensures
        r@ == artifact_path(started_at, id),
{
    let mut p = "recorded_audio_".to_owned();
    let ts = u64_to_string(started_at);
    p.append(ts.as_str());
    p.append("_");
    let num = u64_to_string(id);
    p.append(num.as_str());
    p.append(".wav");
    proof {
        assert(p@ =~= artifact_path(started_at, id));
    }
    p
}

impl AudioRecorder {
    /// A fresh recorder: idle, with the artifact counter at zero.
    pub fn new() -> (r: AudioRecorder)
        ensures
            r@.state is Idle,
            r@.next_id == 0,
    {
        AudioRecorder { state: RecorderState::Idle, next_id: 0 }
    }

    /// React to a press: open a recording unless one is already live.
    ///
    /// Starting while already `Recording` is a no-op that succeeds, so a
    /// repeated press never opens a second stream or a second backing
    /// file.  Otherwise the reported probe decides: no device or a failed
    /// stream (or a format the WAV container cannot carry) leaves the
    /// recorder idle with the matching error; an accepted format opens a
    /// fresh recording under a fresh file name.
    pub fn start_recording(&mut self, probe: DeviceProbe, now: u64) -> (r: Result<
        (),
        CaptureError,
    >)
        requires
            rec_inv(old(self)@),
            old(self)@.next_id < u64::MAX,
        ensures
            rec_inv(final(self)@),
            final(self)@ == spec_start(old(self)@, probe, now).0,
            r == spec_start(old(self)@, probe, now).1,
    {
        match &self.state {
            RecorderState::Recording { .. } => Ok(()),
            RecorderState::Idle => {
                match probe {
                    DeviceProbe::NoDevice => Err(CaptureError::NoInputDevice),
                    DeviceProbe::StreamFailed => Err(CaptureError::StreamError),
                    DeviceProbe::Opened { sample_rate, channels } => {
                        let frame_bytes: u64 = 2 * (channels as u64);
                        proof {
                            assert(frame_bytes * (sample_rate as u64) < u64::MAX) by (nonlinear_arith)
                                requires
                                    frame_bytes <= 0x1fffe,
                                    sample_rate <= 0xffffffffu64,
                            ;
                        }
                        let ok = channels >= 1 && sample_rate >= 1 && frame_bytes * (sample_rate
                            as u64) <= u32::MAX as u64;
                        if ok {
                            let path = make_artifact_path(now, self.next_id);
                            self.state = RecorderState::Recording {
                                path,
                                sample_rate,
                                channels,
                                started_at: now,
                                samples: Vec::new(),
                                dropped: 0,
                            };
                            self.next_id = self.next_id + 1;
                            proof {
                                assert(self@.state->samples.len() == 0);
                                assert(self@.state->samples.len() % (channels as nat) == 0);
                            }
                            Ok(())
                        } else {
                            Err(CaptureError::StreamError)
                        }
                    },
                }
            },
        }
    }

    /// Absorb one buffer delivered by the device callback.
    ///
    /// The callback must never block on the writer, so when the writer is
    /// contended (`writer_available` false), or the buffer would overflow
    /// the capped store or break frame alignment, the buffer is dropped
    /// and only counted.  An idle recorder ignores input entirely.
    pub fn write_input_data(&mut self, input: &[i16], writer_available: bool)
        requires
            rec_inv(old(self)@),
        ensures
            rec_inv(final(self)@),
            final(self)@ == spec_feed(old(self)@, input@, writer_available),
    {
        let ghost pre = self@;
        match &mut self.state {
            RecorderState::Idle => {},
            RecorderState::Recording { channels, samples, dropped, .. } => {
                let fits = input.len() <= MAX_SAMPLES - samples.len();
                let aligned = input.len() % (*channels as usize) == 0;
                if writer_available && fits && aligned {
                    let ghost pre_samples = samples@;
                    samples.extend_from_slice(input);
                    proof {
                        assert forall|i: int|
                            0 <= i < samples@.len() implies samples@[i] == (pre_samples
                            + input@)[i] by {
                            if i >= pre_samples.len() {
                                assert(vstd::pervasive::cloned::<i16>(
                                    input@[i - pre_samples.len()],
                                    samples@[i],
                                ));
                            }
                        }
                        assert(samples@ =~= pre_samples + input@);
                        vstd::arithmetic::div_mod::lemma_add_mod_noop(
                            pre_samples.len() as int,
                            input@.len() as int,
                            *channels as int,
                        );
                    }
                } else {
                    let add = input.len() as u64;
                    if u64::MAX - *dropped >= add {
                        *dropped = *dropped + add;
                    } else {
                        *dropped = u64::MAX;
                    }
                }
            },
        }
        proof {
            assert(self@ == spec_feed(pre, input@, writer_available));
        }
    }

    /// React to a release: finalize and hand over the artifact.
    ///
    /// Returns `None`, changing nothing, when no recording is live.
    /// Otherwise the collected samples are encoded into a complete WAV
    /// container — the writer is drained before the artifact exists, so a
    /// returned artifact is never truncated — and the recorder goes back
    /// to `Idle`, keeping its counter.
    pub fn stop_recording(&mut self) -> (r: Option<AudioArtifact>)
        requires
            rec_inv(old(self)@),
        ensures
            rec_inv(final(self)@),
            final(self)@ == spec_stop(old(self)@).0,
            r is Some <==> spec_stop(old(self)@).1 is Some,
            r is Some ==> r->0@ == spec_stop(old(self)@).1->0,
            r is Some ==> r->0@.data.len() == (if r->0@.channels <= 2 {
                44int
            } else {
                68int
            }) + 2 * (old(self)@.state->samples.len()),
    {
        let mut st = RecorderState::Idle;
        core::mem::swap(&mut self.state, &mut st);
        match st {
            RecorderState::Idle => None,
            RecorderState::Recording { path, sample_rate, channels, samples, .. } => {
                let data = encode_wav(channels, sample_rate, &samples);
                Some(
                    AudioArtifact { path, channels, sample_rate, bits_per_sample: 16, data },
                )
            },
        }
    }
}

/// A second `start_recording` without an intervening stop leaves the
/// recorder exactly as the first left it: the same single backing file,
/// no counter consumed.
pub proof fn lemma_start_idempotent(
    v: RecorderView,
    p1: DeviceProbe,
    now1: u64,
    p2: DeviceProbe,
    now2: u64,
)
    requires
        spec_start(v, p1, now1).0.state is Recording,
    ensures
        spec_start(spec_start(v, p1, now1).0, p2, now2).0 == spec_start(v, p1, now1).0,
        spec_start(spec_start(v, p1, now1).0, p2, now2).1 == Ok::<(), CaptureError>(()),
{
}

/// Stopping while idle returns no artifact and has no side effects.
pub proof fn lemma_stop_idle(v: RecorderView)
    requires
        v.state is Idle,
    ensures
        spec_stop(v) == (v, None::<ArtifactView>),
{
}

/// Two start/stop cycles in a row — however rapid, even within the same
/// timestamp — yield two distinct artifacts under two distinct file
/// names, never a merged one: each start consumes a fresh counter value
/// and stopping keeps the counter.
pub proof fn lemma_rapid_cycles_distinct(
    v: RecorderView,
    p1: DeviceProbe,
    now1: u64,
    p2: DeviceProbe,
    now2: u64,
)
    requires
        v.state is Idle,
        v.next_id < u64::MAX,
        spec_start(v, p1, now1).1 is Ok,
        spec_start(spec_stop(spec_start(v, p1, now1).0).0, p2, now2).1 is Ok,
    ensures
        ({
            let between = spec_stop(spec_start(v, p1, now1).0).0;
            let first = spec_stop(spec_start(v, p1, now1).0).1;
            let second = spec_stop(spec_start(between, p2, now2).0).1;
            first is Some && second is Some && first->0.path != second->0.path
        }),
{
    lemma_artifact_paths_distinct(now1, v.next_id, now2, (v.next_id + 1) as u64);
}

/// Recordings that consumed distinct counter values are persisted under
/// distinct file names, whatever their timestamps: the trailing digit
/// run of the name determines the counter.
pub proof fn lemma_artifact_paths_distinct(ts1: u64, id1: u64, ts2: u64, id2: u64)
    requires
        id1 != id2,
    ensures
        artifact_path(ts1, id1) != artifact_path(ts2, id2),
{
    crate::decimal::lemma_dec_digits_val(id1 as nat);
    crate::decimal::lemma_dec_digits_val(id2 as nat);
    crate::decimal::lemma_dec_digits_val(ts1 as nat);
    crate::decimal::lemma_dec_digits_val(ts2 as nat);
    if artifact_path(ts1, id1) == artifact_path(ts2, id2) {
        reveal_strlit("recorded_audio_");
        reveal_strlit("_");
        reveal_strlit(".wav");
        let a1 = "recorded_audio_"@ + dec_digits(ts1 as nat);
        let a2 = "recorded_audio_"@ + dec_digits(ts2 as nat);
        let d1 = dec_digits(id1 as nat);
        let d2 = dec_digits(id2 as nat);
        lemma_sep_suffix(a1, d1, a2, d2);
        crate::decimal::lemma_dec_digits_injective(id1 as nat, id2 as nat);
    }
}

/// If two strings of the shape `a + "_" + d + ".wav"` are equal, where
/// both `d` parts consist of digits only, then the `d` parts are equal:
/// the separator before `d` is the last underscore of the name.
proof fn lemma_sep_suffix(a1: Seq<char>, d1: Seq<char>, a2: Seq<char>, d2: Seq<char>)
    requires
        crate::decimal::all_digits(d1),
        crate::decimal::all_digits(d2),
        a1 + "_"@ + d1 + ".wav"@ == a2 + "_"@ + d2 + ".wav"@,
    ensures
        d1 == d2,
{
    reveal_strlit("_");
    reveal_strlit(".wav");
    let s = a1 + "_"@ + d1 + ".wav"@;
    assert(s.len() == a1.len() + 1 + d1.len() + 4);
    assert(s.len() == a2.len() + 1 + d2.len() + 4);
    if d1.len() < d2.len() {
        // In the first reading, the position right before d1 holds '_';
        // in the second it falls inside d2, a digit.
        let p = a1.len() as int;
        assert(s[p] == '_');
        assert(s[p] == d2[p - (a2.len() + 1)]);
        assert(crate::decimal::is_digit(d2[p - (a2.len() + 1)]));
        assert(false);
    } else if d2.len() < d1.len() {
        let p = a2.len() as int;
        assert(s[p] == '_');
        assert(s[p] == d1[p - (a1.len() + 1)]);
        assert(crate::decimal::is_digit(d1[p - (a1.len() + 1)]));
        assert(false);
    } else {
        assert forall|i: int| 0 <= i < d1.len() implies d1[i] == d2[i] by {
            assert(d1[i] == s[a1.len() + 1 + i]);
            assert(d2[i] == s[a2.len() + 1 + i]);
        }
        assert(d1 =~= d2);
    }
}

} // verus!
