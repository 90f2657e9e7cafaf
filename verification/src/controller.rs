//! The session controller.
//!
//! One state machine drives the whole pipeline: a press arms a recording
//! session, the matching release finalizes it into an artifact that an
//! independently scheduled unit of work transcribes and types, and a
//! cancellation signal shuts the controller down for good, stopping any
//! live recording without transcribing it.  The controller never waits
//! for a transcription to finish before accepting the next press, so
//! transcriptions of successive utterances may be in flight at once.
//!
//! The unverified shell runs the polling loop: it drains the hotkey
//! signal, hands each edge to [`SessionController::handle_event`]
//! together with the device-probe outcome, and performs what the
//! returned [`EdgeOutcome`] asks for.

use vstd::prelude::*;
use crate::audio::AudioArtifact;
use crate::audio::AudioRecorder;
use crate::audio::CaptureError;
use crate::audio::DeviceProbe;
use crate::audio::rec_inv;
use crate::audio::spec_start;
use crate::audio::spec_stop;
use crate::hotkey::HotkeyEdge;
use crate::hotkey::HotkeyEvent;
use crate::transcribe::TranscribeError;

verus! {

/// The controller's phase.
#[derive(Clone, Copy, Debug, PartialEq, Eq, Structural)]
pub enum ControllerState {
    /// No recording in progress; a press starts one.
    Idle,
    /// A recording is in progress; the matching release finalizes it.
    Armed,
    /// Shut down for good; every further edge is ignored.
    Stopped,
}

/// What one handled edge asks the shell to do.
#[derive(Debug)]
pub enum EdgeOutcome {
    /// A recording started: keep the device stream running and feed its
    /// buffers to the recorder.
    Started,
    /// The press could not start a recording; log and stay idle.
    StartFailed(CaptureError),
    /// A recording was finalized: schedule transcription and typing of
    /// this artifact, then delete its backing file.
    Finished(AudioArtifact),
    /// The edge required nothing.
    Ignored,
}

/// Owns the one recording session and reacts to hotkey edges.
#[derive(Debug)]
pub struct SessionController {
    /// Current phase.
    pub state: ControllerState,
    /// The single capture session this controller owns.
    pub recorder: AudioRecorder,
}

/// Well-formedness: the controller is armed exactly while its recorder
/// holds the one live recording, so at most one recording exists.
pub open spec fn ctrl_inv(c: SessionController) -> bool {
    &&& (c.state is Armed <==> c.recorder@.state is Recording)
    &&& rec_inv(c.recorder@)
}

/// The controller phase after one edge, given whether a start attempted
/// from `Idle` would succeed.
pub open spec fn ctrl_step(st: ControllerState, edge: HotkeyEdge, start_ok: bool) -> ControllerState {
    match st {
        ControllerState::Idle => match edge {
            HotkeyEdge::Pressed => if start_ok {
                ControllerState::Armed
            } else {
                ControllerState::Idle
            },
            HotkeyEdge::Released => ControllerState::Idle,
        },
        ControllerState::Armed => match edge {
            HotkeyEdge::Pressed => ControllerState::Armed,
            HotkeyEdge::Released => ControllerState::Idle,
        },
        ControllerState::Stopped => ControllerState::Stopped,
    }
}

impl SessionController {
    /// A fresh controller: idle, owning a fresh recorder.
    pub fn new() -> (r: SessionController)
        ensures
            ctrl_inv(r),
            r.state is Idle,
            r.recorder@.state is Idle,
            r.recorder@.next_id == 0,
    {
        SessionController { state: ControllerState::Idle, recorder: AudioRecorder::new() }
    }

    /// React to a press edge.
    ///
    /// From `Idle`, attempt to start recording: on success the
    /// controller arms, on failure it stays idle and returns the error
    /// for logging.  A repeated press while `Armed` is ignored (the
    /// recording continues), and a press after shutdown does nothing.
    pub fn on_press(&mut self, probe: DeviceProbe, now: u64) -> (r: Result<(), CaptureError>)
        requires
            ctrl_inv(*old(self)),
            old(self).recorder@.next_id < u64::MAX,
        ensures
            ctrl_inv(*final(self)),
            final(self).state == ctrl_step(
                old(self).state,
                HotkeyEdge::Pressed,
                spec_start(old(self).recorder@, probe, now).1 is Ok,
            ),
            old(self).state is Idle ==> {
                &&& r == spec_start(old(self).recorder@, probe, now).1
                &&& final(self).recorder@ == spec_start(old(self).recorder@, probe, now).0
            },
            !(old(self).state is Idle) ==> *final(self) == *old(self) && r is Ok,
    {
        match self.state {
            ControllerState::Idle => {
                let r = self.recorder.start_recording(probe, now);
                if r.is_ok() {
                    self.state = ControllerState::Armed;
                }
                r
            },
            ControllerState::Armed => Ok(()),
            ControllerState::Stopped => Ok(()),
        }
    }

    /// React to a release edge.
    ///
    /// From `Armed`, stop the session and hand the finalized artifact
    /// over; the controller is idle again at once — it does not wait for
    /// the artifact's transcription.  A release in any other phase does
    /// nothing.
    pub fn on_release(&mut self) -> (r: Option<AudioArtifact>)
        requires
            ctrl_inv(*old(self)),
        ensures
            ctrl_inv(*final(self)),
            final(self).state == ctrl_step(old(self).state, HotkeyEdge::Released, true),
            old(self).state is Armed ==> {
                &&& r is Some
                &&& r->0@ == spec_stop(old(self).recorder@).1->0
                &&& final(self).recorder@ == spec_stop(old(self).recorder@).0
            },
            !(old(self).state is Armed) ==> r is None && *final(self) == *old(self),
    {
        match self.state {
            ControllerState::Armed => {
                let artifact = self.recorder.stop_recording();
                self.state = ControllerState::Idle;
                artifact
            },
            _ => None,
        }
    }

    /// React to the external cancellation signal: shut down for good.
    ///
    /// A live recording is stopped first so no stream or backing file
    /// leaks; the returned artifact is discarded rather than
    /// transcribed, and the caller only deletes its backing file.
    pub fn on_cancel(&mut self) -> (r: Option<AudioArtifact>)
        requires
            ctrl_inv(*old(self)),
        ensures
            ctrl_inv(*final(self)),
            final(self).state is Stopped,
            old(self).state is Armed ==> {
                &&& r is Some
                &&& r->0@ == spec_stop(old(self).recorder@).1->0
                &&& final(self).recorder@ == spec_stop(old(self).recorder@).0
            },
            !(old(self).state is Armed) ==> r is None && final(self).recorder@ == old(
                self,
            ).recorder@,
    {
        let artifact = match self.state {
            ControllerState::Armed => self.recorder.stop_recording(),
            _ => None,
        };
        self.state = ControllerState::Stopped;
        artifact
    }

    /// Dispatch one hotkey edge to the press or release handler and
    /// report what the shell must do for it.
    pub fn handle_event(&mut self, event: &HotkeyEvent, probe: DeviceProbe, now: u64) -> (r:
        EdgeOutcome)
        requires
            ctrl_inv(*old(self)),
            old(self).recorder@.next_id < u64::MAX,
        ensures
            ctrl_inv(*final(self)),
            final(self).state == ctrl_step(
                old(self).state,
                event.edge,
                spec_start(old(self).recorder@, probe, now).1 is Ok,
            ),
            event.edge is Pressed ==> {
                &&& (old(self).state is Idle ==> {
                    &&& final(self).recorder@ == spec_start(old(self).recorder@, probe, now).0
                    &&& match spec_start(old(self).recorder@, probe, now).1 {
                        Ok(()) => r is Started,
                        Err(e) => r matches EdgeOutcome::StartFailed(e2) && e2 == e,
                    }
                })
                &&& (!(old(self).state is Idle) ==> *final(self) == *old(self)
                    && r is Ignored)
            },
            event.edge is Released ==> {
                &&& (old(self).state is Armed ==> {
                    &&& r matches EdgeOutcome::Finished(a) && a@ == spec_stop(
                        old(self).recorder@,
                    ).1->0
                    &&& final(self).recorder@ == spec_stop(old(self).recorder@).0
                })
                &&& (!(old(self).state is Armed) ==> *final(self) == *old(self)
                    && r is Ignored)
            },
    {
        match event.edge {
            HotkeyEdge::Pressed => {
                let was_idle = matches!(self.state, ControllerState::Idle);
                match self.on_press(probe, now) {
                    Ok(()) => if was_idle {
                        EdgeOutcome::Started
                    } else {
                        EdgeOutcome::Ignored
                    },
                    Err(e) => EdgeOutcome::StartFailed(e),
                }
            },
            HotkeyEdge::Released => {
                match self.on_release() {
                    Some(artifact) => EdgeOutcome::Finished(artifact),
                    None => EdgeOutcome::Ignored,
                }
            },
        }
    }

    /// Whether a finished transcription should still be typed: only a
    /// successful result, and only while the controller has not been
    /// shut down — a late arrival after shutdown is discarded.  The
    /// artifact's backing file is deleted by the caller either way,
    /// exactly once.
    pub fn should_type(&self, transcription: &Result<String, TranscribeError>) -> (r: bool)
        ensures
            r <==> (transcription is Ok && !(self.state is Stopped)),
    {
        transcription.is_ok() && !matches!(self.state, ControllerState::Stopped)
    }
}

/// The controller phase after a whole sequence of edges, starting from
/// `st`, when every start attempt succeeds.
pub open spec fn run_edges(st: ControllerState, edges: Seq<HotkeyEdge>) -> ControllerState
    decreases edges.len(),
{
    if edges.len() == 0 {
        st
    } else {
        ctrl_step(run_edges(st, edges.drop_last()), edges.last(), true)
    }
}

/// For any edge sequence in which no two presses arrive without an
/// intervening release, and whose start attempts all succeed, the
/// controller's `Armed`/`Idle` alternation matches the edge order
/// exactly: starting from `Idle`, it is `Armed` after precisely the
/// prefixes that end in a press.
pub proof fn lemma_alternation(edges: Seq<HotkeyEdge>, i: int)
    requires
        no_unseparated_presses(edges),
        0 <= i < edges.len(),
    ensures
        run_edges(ControllerState::Idle, edges.take(i + 1)) == (if edges[i] is Pressed {
            ControllerState::Armed
        } else {
            ControllerState::Idle
        }),
{
    lemma_alternation_steps(edges, i);
}

proof fn lemma_alternation_steps(edges: Seq<HotkeyEdge>, i: int)
    requires
        0 <= i < edges.len(),
    ensures
        run_edges(ControllerState::Idle, edges.take(i + 1)) == (if edges[i] is Pressed {
            ControllerState::Armed
        } else {
            ControllerState::Idle
        }),
    decreases i,
{
    let pre = edges.take(i + 1);
    assert(pre.drop_last() =~= edges.take(i));
    assert(pre.last() == edges[i]);
    if i == 0 {
        assert(run_edges(ControllerState::Idle, edges.take(0)) == ControllerState::Idle);
    } else {
        lemma_alternation_steps(edges, i - 1);
    }
}

/// No two presses without an intervening release.  (Opaque: the
/// alternation law holds whenever starts succeed, so its proof never
/// inspects this hypothesis.)
#[verifier::opaque]
pub open spec fn no_unseparated_presses(edges: Seq<HotkeyEdge>) -> bool {
    forall|i: int, j: int|
        0 <= i < j < edges.len() && edges[i] is Pressed && edges[j] is Pressed ==> exists|k: int|
            i < k < j && edges[k] is Released
}

} // verus!
