//! The session supervisor: decides, from what the last step of the audio
//! session ended with, whether to start a session, run the processing loop,
//! wait for the device topology to change, or wait a short delay and retry.
//! The program around the library performs each action and reports back.

use crate::bridge::spec_processed_outcome;
use crate::device::{spec_check_formats, StreamFormat};
use crate::error::{ErrorKind, Recovery};
use vstd::prelude::*;

verus! {

/// Delay before a session is started again after an error, in milliseconds.
pub const RETRY_DELAY_MS: u64 = 100;

#[derive(Clone, Copy, Debug, PartialEq, Eq, Structural)]
pub enum Phase {
    /// Resolving devices, checking formats, opening streams.
    Starting,
    /// The processing loop runs.
    Running,
    /// A device was missing: waiting for the device topology to change.
    Recovering,
    /// Something else failed: waiting a fixed delay.
    Retrying,
}

/// What the last action ended with.
#[derive(Clone, Debug)]
pub enum SessionEvent {
    /// Both streams are open and playing.
    Started,
    /// Starting or running the session failed.
    Failed(ErrorKind),
    /// The processing loop ended because a restart was requested.
    Stopped,
    /// The device-change watcher returned.
    DevicesChanged,
    /// The retry delay passed.
    DelayElapsed,
}

/// What to do next.
#[derive(Clone, Copy, Debug, PartialEq, Eq, Structural)]
pub enum SessionAction {
    /// Resolve the devices, check their formats, configure the engine, and
    /// open and start both streams; report `Started` or `Failed`.
    Start,
    /// Run the processing loop until a restart is requested or the bridge
    /// fails; report `Stopped` or `Failed`.
    RunProcessor,
    /// Block on the device-change watcher; report `DevicesChanged`.
    AwaitDeviceChange,
    /// Sleep this many milliseconds; report `DelayElapsed`.
    Sleep(u64),
}

/// The supervisor's decision on one event.
#[derive(Clone, Copy, Debug, PartialEq, Eq, Structural)]
pub struct Decision {
    pub action: SessionAction,
    /// The error reported with the event should be logged: it is not of the
    /// same kind as the error before it.
    pub log_error: bool,
}

/// The supervisor's state.
#[derive(Clone, Copy, Debug, PartialEq, Eq, Structural)]
pub struct Supervisor {
    pub phase: Phase,
    /// The kind of the last error reported, if any.
    pub last_error: Option<u8>,
    /// The engine's one-time initialization has been done.
    pub engine_initialized: bool,
}

/// The action that goes with a phase.
pub open spec fn phase_action(p: Phase) -> SessionAction {
    match p {
        Phase::Starting => SessionAction::Start,
        Phase::Running => SessionAction::RunProcessor,
        Phase::Recovering => SessionAction::AwaitDeviceChange,
        Phase::Retrying => SessionAction::Sleep(RETRY_DELAY_MS),
    }
}

pub open spec fn spec_step(s: Supervisor, e: SessionEvent) -> (Supervisor, Decision) {
    match (s.phase, e) {
        (Phase::Starting, SessionEvent::Started) => (
            Supervisor { phase: Phase::Running, ..s },
            Decision { action: SessionAction::RunProcessor, log_error: false },
        ),
        (Phase::Starting, SessionEvent::Failed(err)) | (Phase::Running, SessionEvent::Failed(err)) => {
            let phase = match err.spec_recovery() {
                Recovery::AwaitDeviceChange => Phase::Recovering,
                Recovery::RetryAfterDelay => Phase::Retrying,
            };
            let log_error = match s.last_error {
                Some(k) => k != err.tag(),
                None => true,
            };
            (
                Supervisor { phase, last_error: Some(err.tag() as u8), ..s },
                Decision { action: phase_action(phase), log_error },
            )
        },
        (Phase::Running, SessionEvent::Stopped) => (
            Supervisor { phase: Phase::Retrying, ..s },
            Decision { action: SessionAction::Sleep(RETRY_DELAY_MS), log_error: false },
        ),
        (Phase::Recovering, SessionEvent::DevicesChanged) | (
            Phase::Retrying,
            SessionEvent::DelayElapsed,
        ) => (
            Supervisor { phase: Phase::Starting, ..s },
            Decision { action: SessionAction::Start, log_error: false },
        ),
        _ => (s, Decision { action: phase_action(s.phase), log_error: false }),
    }
}

impl Supervisor {
    /// A supervisor about to start the first session.
    pub fn new() -> (r: Supervisor)
        ensures
            r.phase == Phase::Starting,
            r.last_error is None,
            !r.engine_initialized,
    {
        Supervisor { phase: Phase::Starting, last_error: None, engine_initialized: false }
    }

    /// The action to perform in the current phase.
    pub fn action(&self) -> (r: SessionAction)
        ensures
            r == phase_action(self.phase),
    {
        match self.phase {
            Phase::Starting => SessionAction::Start,
            Phase::Running => SessionAction::RunProcessor,
            Phase::Recovering => SessionAction::AwaitDeviceChange,
            Phase::Retrying => SessionAction::Sleep(RETRY_DELAY_MS),
        }
    }

    /// Whether the engine's one-time initialization is to be done now: true
    /// on the first call only, so the engine is initialized once per process
    /// lifetime, not once per session.
    pub fn take_engine_init(&mut self) -> (r: bool)
        ensures
            r == !old(self).engine_initialized,
            *final(self) == (Supervisor { engine_initialized: true, ..*old(self) }),
    {
        let first = !self.engine_initialized;
        self.engine_initialized = true;
        first
    }

    /// Moves on from one event. A failure while starting or running leads
    /// to waiting on the device-change watcher when a device is missing, and
    /// to a short delay otherwise; the failure is to be logged only when it
    /// is not of the same kind as the one before it. A requested restart
    /// waits the delay too. Waiting ends in a new start. An event that does
    /// not belong to the phase changes nothing.
    pub fn step(self, event: SessionEvent) -> (r: (Supervisor, Decision))
        ensures
            r == spec_step(self, event),
    {
        match (self.phase, event) {
            (Phase::Starting, SessionEvent::Started) => (
                Supervisor { phase: Phase::Running, ..self },
                Decision { action: SessionAction::RunProcessor, log_error: false },
            ),
            (Phase::Starting, SessionEvent::Failed(err)) | (Phase::Running, SessionEvent::Failed(err)) => {
                let phase = match err.recovery() {
                    Recovery::AwaitDeviceChange => Phase::Recovering,
                    Recovery::RetryAfterDelay => Phase::Retrying,
                };
                let kind = err.kind_number();
                let log_error = match self.last_error {
                    Some(k) => k != kind,
                    None => true,
                };
                let next = Supervisor { phase, last_error: Some(kind), ..self };
                let action = next.action();
                (next, Decision { action, log_error })
            },
            (Phase::Running, SessionEvent::Stopped) => (
                Supervisor { phase: Phase::Retrying, ..self },
                Decision { action: SessionAction::Sleep(RETRY_DELAY_MS), log_error: false },
            ),
            (Phase::Recovering, SessionEvent::DevicesChanged) | (
                Phase::Retrying,
                SessionEvent::DelayElapsed,
            ) => (
                Supervisor { phase: Phase::Starting, ..self },
                Decision { action: SessionAction::Start, log_error: false },
            ),
            _ => (self, Decision { action: self.action(), log_error: false }),
        }
    }
}

/// The state after a sequence of events, and the actions decided on the way.
pub open spec fn trace(s: Supervisor, events: Seq<SessionEvent>) -> (Supervisor, Seq<SessionAction>)
    decreases events.len(),
{
    if events.len() == 0 {
        (s, Seq::empty())
    } else {
        let (prev, actions) = trace(s, events.drop_last());
        let (next, d) = spec_step(prev, events.last());
        (next, actions.push(d.action))
    }
}

/// Recovery: a missing output device, while starting or running, leads to
/// waiting on the device-change watcher. Whatever else is then reported, the
/// supervisor keeps waiting on the watcher, never retrying on its own; the
/// watcher's signal leads back to starting, at once.
pub proof fn lemma_missing_device_waits_for_watcher(
    s: Supervisor,
    others: Seq<SessionEvent>,
)
    requires
        s.phase == Phase::Starting || s.phase == Phase::Running,
        forall|i: int| 0 <= i < others.len() ==> !(#[trigger] others[i] is DevicesChanged),
    ensures
        ({
            let (r, d) = spec_step(s, SessionEvent::Failed(ErrorKind::NoOutputDevice));
            &&& r.phase == Phase::Recovering
            &&& d.action == SessionAction::AwaitDeviceChange
            &&& trace(r, others).0.phase == Phase::Recovering
            &&& forall|i: int|
                0 <= i < others.len() ==> #[trigger] trace(r, others).1[i]
                    == SessionAction::AwaitDeviceChange
            &&& trace(r, others.push(SessionEvent::DevicesChanged)).0.phase == Phase::Starting
            &&& trace(r, others.push(SessionEvent::DevicesChanged)).1.last() == SessionAction::Start
        }),
{
    let (r, d) = spec_step(s, SessionEvent::Failed(ErrorKind::NoOutputDevice));
    lemma_recovering_stays(r, others);
    assert(others.push(SessionEvent::DevicesChanged).drop_last() =~= others);
}

proof fn lemma_recovering_stays(r: Supervisor, others: Seq<SessionEvent>)
    requires
        r.phase == Phase::Recovering,
        forall|i: int| 0 <= i < others.len() ==> !(#[trigger] others[i] is DevicesChanged),
    ensures
        trace(r, others).0.phase == Phase::Recovering,
        trace(r, others).1.len() == others.len(),
        forall|i: int|
            0 <= i < others.len() ==> #[trigger] trace(r, others).1[i]
                == SessionAction::AwaitDeviceChange,
    decreases others.len(),
{
    if others.len() > 0 {
        let prev = others.drop_last();
        assert forall|i: int| 0 <= i < prev.len() implies !(#[trigger] prev[i] is DevicesChanged) by {
            assert(prev[i] == others[i]);
        }
        lemma_recovering_stays(r, prev);
        assert(!(others[others.len() - 1] is DevicesChanged));
    }
}

/// Backpressure: a processed frame refused by a full output bridge is a
/// fatal session error, and the supervisor tears the running session down
/// and rebuilds it after the retry delay.
pub proof fn lemma_stalled_render_restarts(s: Supervisor)
    requires
        s.phase == Phase::Running,
    ensures
        spec_processed_outcome(Ok(false)) == Err::<(), ErrorKind>(ErrorKind::RenderStalled),
        spec_step(s, SessionEvent::Failed(ErrorKind::RenderStalled)).0.phase == Phase::Retrying,
        spec_step(s, SessionEvent::Failed(ErrorKind::RenderStalled)).1.action == SessionAction::Sleep(
            RETRY_DELAY_MS,
        ),
{
}

/// Format rejection: a capture and a render format with different sample
/// rates are rejected as an invalid configuration, so the start fails before
/// any stream is opened, and the supervisor waits the retry delay instead of
/// running the processor.
pub proof fn lemma_rate_mismatch_rejected(s: Supervisor, capture: StreamFormat, render: StreamFormat)
    requires
        s.phase == Phase::Starting,
        capture.sample_rate != render.sample_rate,
    ensures
        spec_check_formats(capture, render) matches Err(e) && e is InvalidConfiguration && spec_step(
            s,
            SessionEvent::Failed(e),
        ).1.action == SessionAction::Sleep(RETRY_DELAY_MS),
{
}

} // verus!
