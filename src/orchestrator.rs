//! The capture system: the run state, the setup of a run, the playback of
//! highlights, and the control loop that turns telemetry into saves.
use vstd::prelude::*;
use crate::mugi_schema::{MugiCmd, DecodeError, classify, is_capture_cmd, parse_cmd};
use crate::obs::{Obs, Awaiting, Request, Reply, Step, ControlError, Descriptor, after_reply, begin, begin_connect};

verus! {

/// Delay between a capture command and the save of the replay buffer, in
/// milliseconds: long enough for the moment to be inside the saved window.
pub const COOLDOWN_MS: u64 = 3000;

/// What the process knows of the capture system: the endpoint of the run, once
/// one started, and whether a run is active.
#[derive(Debug, PartialEq, Eq)]
pub struct AppState {
    pub obs_connection_info: Option<Descriptor>,
    pub is_system_running: bool,
}

/// Why a run could not start, by the step that failed.
#[derive(Debug, PartialEq, Eq)]
pub enum SetupError {
    /// A run is active already.
    AlreadyRunning,
    Connect(ControlError),
    ReplayBuffer(ControlError),
    Overlay(ControlError),
}

/// The steps of setting up a run, in order.
#[derive(Clone, Copy, Debug, PartialEq, Eq, Structural)]
pub enum SetupPhase {
    Connecting,
    ReplayBuffer,
    Overlay,
}

/// A run being set up: the session, and the step it is at.
#[derive(Debug, PartialEq, Eq)]
pub struct Setup {
    pub obs: Obs,
    pub phase: SetupPhase,
}

/// What a setup, or a playback, asks of its caller next.
#[derive(Debug, PartialEq, Eq)]
pub enum Progress<E> {
    Send(Request),
    Done,
    Failed(E),
}

pub open spec fn phase_error(phase: SetupPhase, e: ControlError) -> SetupError {
    match phase {
        SetupPhase::Connecting => SetupError::Connect(e),
        SetupPhase::ReplayBuffer => SetupError::ReplayBuffer(e),
        SetupPhase::Overlay => SetupError::Overlay(e),
    }
}

/// What a step of the session means for the setup, in the given phase.
pub open spec fn progress_of(step: Step, phase: SetupPhase) -> Progress<SetupError> {
    match step {
        Step::Send(req) => Progress::Send(req),
        Step::Finished(Ok(())) => Progress::Done,
        Step::Finished(Err(e)) => Progress::Failed(phase_error(phase, e)),
    }
}

/// Entering a phase with the first step of its operation.
pub open spec fn enter(b: (Obs, Step), phase: SetupPhase) -> (Setup, Progress<SetupError>) {
    (Setup { obs: b.0, phase }, progress_of(b.1, phase))
}

/// How a setup answers a reply: the session takes it; when the session's
/// operation succeeds, the next phase begins, and after the overlay the setup
/// is done. A failure ends the setup, naming the phase.
pub open spec fn setup_after(s: Setup, reply: Reply) -> (Setup, Progress<SetupError>) {
    let (obs, step) = after_reply(s.obs, reply);
    match step {
        Step::Send(req) => (Setup { obs, ..s }, Progress::Send(req)),
        Step::Finished(Err(e)) => (Setup { obs, ..s }, Progress::Failed(phase_error(s.phase, e))),
        Step::Finished(Ok(())) => match s.phase {
            SetupPhase::Connecting => enter(
                begin(obs, Awaiting::BufferStatus, Request::GetReplayBufferStatus),
                SetupPhase::ReplayBuffer,
            ),
            SetupPhase::ReplayBuffer => enter(
                begin(obs, Awaiting::OverlayInputs, Request::ListOverlayInputs),
                SetupPhase::Overlay,
            ),
            SetupPhase::Overlay => (Setup { obs, ..s }, Progress::Done),
        },
    }
}

fn lift_step(phase: SetupPhase, step: Step) -> (r: Progress<SetupError>)
    ensures
        r == progress_of(step, phase),
{
    match step {
        Step::Send(req) => Progress::Send(req),
        Step::Finished(Ok(())) => Progress::Done,
        Step::Finished(Err(e)) => Progress::Failed(match phase {
            SetupPhase::Connecting => SetupError::Connect(e),
            SetupPhase::ReplayBuffer => SetupError::ReplayBuffer(e),
            SetupPhase::Overlay => SetupError::Overlay(e),
        }),
    }
}

impl Setup {
    /// Begins setting up a run on the backend at `host:port`: connect, make
    /// sure the replay buffer is active, make sure the overlay source exists.
    /// The first request is the connection.
    pub fn begin(host: String, port: u16, password: Option<String>) -> (r: (Setup, Request))
        ensures
            r.0.phase == SetupPhase::Connecting,
            (r.0.obs, Step::Send(r.1)) == begin_connect(
                Obs { descriptor: None, pending: None },
                Descriptor { host, port, password },
            ),
    {
        let d = Descriptor { host, port, password };
        let req = Request::Connect(d.duplicate());
        let obs = Obs { descriptor: None, pending: Some(Awaiting::Connecting(d)) };
        (Setup { obs, phase: SetupPhase::Connecting }, req)
    }

    /// Takes the backend's reply to the last request sent.
    pub fn on_reply(&mut self, reply: Reply) -> (r: Progress<SetupError>)
        ensures
            (*final(self), r) == setup_after(*old(self), reply),
    {
        let step = self.obs.on_reply(reply);
        match step {
            Step::Send(req) => Progress::Send(req),
            Step::Finished(Err(e)) => lift_step(self.phase, Step::Finished(Err(e))),
            Step::Finished(Ok(())) => match self.phase {
                SetupPhase::Connecting => {
                    self.phase = SetupPhase::ReplayBuffer;
                    let next = self.obs.set_replay_buffer();
                    lift_step(SetupPhase::ReplayBuffer, next)
                },
                SetupPhase::ReplayBuffer => {
                    self.phase = SetupPhase::Overlay;
                    let next = self.obs.init_vlc_source();
                    lift_step(SetupPhase::Overlay, next)
                },
                SetupPhase::Overlay => Progress::Done,
            },
        }
    }
}

/// Why highlights could not be shown.
#[derive(Debug, PartialEq, Eq)]
pub enum PlaybackError {
    /// No run has recorded an endpoint to reach the backend at.
    NoConnectionInfo,
    Connect(ControlError),
    Play(ControlError),
}

/// Showing highlights: the session, and the clips still to hand over once it
/// is connected (`None` once they were handed over).
#[derive(Debug, PartialEq, Eq)]
pub struct Playback {
    pub obs: Obs,
    pub paths: Option<Vec<String>>,
}

/// What a request to show highlights comes to.
#[derive(Debug, PartialEq, Eq)]
pub enum HighlightsPlan {
    /// The list is empty: nothing to show, and the backend is not contacted.
    NothingToPlay,
    /// Connect with the first request, then show the clips.
    Play(Playback, Request),
}

/// How a playback answers a reply: once connected, the playlist is replaced;
/// once the overlay is shown, it is done.
pub open spec fn playback_after(p: Playback, reply: Reply) -> (Playback, Progress<PlaybackError>) {
    let (obs, step) = after_reply(p.obs, reply);
    match step {
        Step::Send(req) => (Playback { obs, ..p }, Progress::Send(req)),
        Step::Finished(Err(e)) => (
            Playback { obs, ..p },
            Progress::Failed(
                if p.paths is Some {
                    PlaybackError::Connect(e)
                } else {
                    PlaybackError::Play(e)
                },
            ),
        ),
        Step::Finished(Ok(())) => match p.paths {
            Some(paths) => {
                let (o2, st2) = begin(
                    obs,
                    Awaiting::PlaylistUpdate,
                    Request::SetOverlayPlaylist { paths },
                );
                (
                    Playback { obs: o2, paths: None },
                    match st2 {
                        Step::Send(req) => Progress::Send(req),
                        Step::Finished(Ok(())) => Progress::Done,
                        Step::Finished(Err(e)) => Progress::Failed(PlaybackError::Play(e)),
                    },
                )
            },
            None => (Playback { obs, ..p }, Progress::Done),
        },
    }
}

impl Playback {
    /// Takes the backend's reply to the last request sent.
    pub fn on_reply(&mut self, reply: Reply) -> (r: Progress<PlaybackError>)
        ensures
            (*final(self), r) == playback_after(*old(self), reply),
    {
        let step = self.obs.on_reply(reply);
        match step {
            Step::Send(req) => Progress::Send(req),
            Step::Finished(Err(e)) => {
                if self.paths.is_some() {
                    Progress::Failed(PlaybackError::Connect(e))
                } else {
                    Progress::Failed(PlaybackError::Play(e))
                }
            },
            Step::Finished(Ok(())) => {
                let mut taken: Option<Vec<String>> = None;
                std::mem::swap(&mut self.paths, &mut taken);
                match taken {
                    Some(paths) => match self.obs.play_vlc_source(paths) {
                        Step::Send(req) => Progress::Send(req),
                        Step::Finished(Ok(())) => Progress::Done,
                        Step::Finished(Err(e)) => Progress::Failed(PlaybackError::Play(e)),
                    },
                    None => Progress::Done,
                }
            },
        }
    }
}

impl AppState {
    /// No run has started, and no endpoint is known.
    pub fn new() -> (r: AppState)
        ensures
            r.obs_connection_info is None,
            !r.is_system_running,
    {
        AppState { obs_connection_info: None, is_system_running: false }
    }

    /// Begins a run on the backend at `host:port`. While a run is active this
    /// is refused, and no session is opened.
    pub fn connect_obs(&self, host: String, port: u16, password: Option<String>) -> (r: Result<
        (Setup, Request),
        SetupError,
    >)
        ensures
            self.is_system_running ==> r matches Err(SetupError::AlreadyRunning),
            !self.is_system_running ==> (r matches Ok((s, req)) && s.phase == SetupPhase::Connecting
                && (s.obs, Step::Send(req)) == begin_connect(
                Obs { descriptor: None, pending: None },
                Descriptor { host, port, password },
            )),
    {
        if self.is_system_running {
            return Err(SetupError::AlreadyRunning);
        }
        Ok(Setup::begin(host, port, password))
    }

    /// Marks the run set up on `descriptor` as active and records its
    /// endpoint. While a run is active this is refused and changes nothing.
    pub fn start_system(&mut self, descriptor: Descriptor) -> (r: Result<(), SetupError>)
        ensures
            old(self).is_system_running ==> (r matches Err(SetupError::AlreadyRunning)),
            old(self).is_system_running ==> *final(self) == *old(self),
            !old(self).is_system_running ==> r is Ok && final(self).is_system_running
                && final(self).obs_connection_info == Some(descriptor),
    {
        if self.is_system_running {
            return Err(SetupError::AlreadyRunning);
        }
        self.obs_connection_info = Some(descriptor);
        self.is_system_running = true;
        Ok(())
    }

    /// Shows the clips `video_paths`, in order, in the overlay source of the
    /// backend of the run. An empty list needs no backend at all.
    pub fn play_highlights(&self, video_paths: Vec<String>) -> (r: Result<
        HighlightsPlan,
        PlaybackError,
    >)
        ensures
            video_paths.len() == 0 ==> r matches Ok(HighlightsPlan::NothingToPlay),
            video_paths.len() > 0 && self.obs_connection_info is None ==> r matches Err(
                PlaybackError::NoConnectionInfo,
            ),
            video_paths.len() > 0 && self.obs_connection_info is Some ==> (r matches Ok(
                HighlightsPlan::Play(p, req),
            ) && p.paths == Some(video_paths) && (p.obs, Step::Send(req)) == begin_connect(
                Obs { descriptor: None, pending: None },
                self.obs_connection_info->0,
            )),
    {
        if video_paths.len() == 0 {
            return Ok(HighlightsPlan::NothingToPlay);
        }
        match &self.obs_connection_info {
            None => Err(PlaybackError::NoConnectionInfo),
            Some(d) => {
                let req = Request::Connect(d.duplicate());
                let obs = Obs { descriptor: None, pending: Some(Awaiting::Connecting(d.duplicate())) };
                Ok(HighlightsPlan::Play(Playback { obs, paths: Some(video_paths) }, req))
            },
        }
    }
}

/// What the control loop made of one datagram.
#[derive(Debug, PartialEq, Eq)]
pub enum DatagramOutcome {
    /// The datagram names no known command; it is skipped.
    Unrecognized,
    /// A known command that asks for nothing.
    Ignored(MugiCmd),
    /// A capture command: a save is due at the given time.
    SaveScheduled(u64),
}

/// The saves of a run that are still waiting out their cool-down, by the time
/// (in milliseconds) at which each is due, in the order of their commands.
#[derive(Debug, PartialEq, Eq)]
pub struct CaptureLoop {
    pub pending_saves: Vec<u64>,
}

/// The deadlines of `p` that have come by `now`.
pub open spec fn due(p: Seq<u64>, now: u64) -> Seq<u64> {
    p.filter(|d: u64| d <= now)
}

/// The deadlines of `p` still ahead of `now`.
pub open spec fn ahead(p: Seq<u64>, now: u64) -> Seq<u64> {
    p.filter(|d: u64| d > now)
}

/// The saves pending after a command at `now` was handled.
pub open spec fn schedule(p: Seq<u64>, cmd: Result<MugiCmd, DecodeError>, now: u64) -> Seq<u64> {
    match cmd {
        Ok(c) => if is_capture_cmd(c) {
            p.push((now + COOLDOWN_MS) as u64)
        } else {
            p
        },
        Err(_) => p,
    }
}

pub open spec fn outcome_of(cmd: Result<MugiCmd, DecodeError>, now: u64) -> DatagramOutcome {
    match cmd {
        Ok(c) => if is_capture_cmd(c) {
            DatagramOutcome::SaveScheduled((now + COOLDOWN_MS) as u64)
        } else {
            DatagramOutcome::Ignored(c)
        },
        Err(_) => DatagramOutcome::Unrecognized,
    }
}

impl CaptureLoop {
    /// No save pending.
    pub fn new() -> (r: CaptureLoop)
        ensures
            r.pending_saves@ == Seq::<u64>::empty(),
    {
        CaptureLoop { pending_saves: Vec::new() }
    }

    /// Handles a classified datagram that arrived at `now_ms`: a capture command
    /// schedules one save, due a cool-down later; anything else schedules none.
    pub fn on_command(&mut self, cmd: Result<MugiCmd, DecodeError>, now_ms: u64) -> (r:
        DatagramOutcome)
        requires
            now_ms <= u64::MAX - COOLDOWN_MS,
        ensures
            r == outcome_of(cmd, now_ms),
            final(self).pending_saves@ == schedule(old(self).pending_saves@, cmd, now_ms),
    {
        match cmd {
            Ok(c) => {
                if c.is_capture() {
                    let at = now_ms + COOLDOWN_MS;
                    self.pending_saves.push(at);
                    DatagramOutcome::SaveScheduled(at)
                } else {
                    DatagramOutcome::Ignored(c)
                }
            },
            Err(_) => DatagramOutcome::Unrecognized,
        }
    }

    /// Handles a raw datagram that arrived at `now_ms`.
    pub fn on_datagram(&mut self, raw: &str, now_ms: u64) -> (r: DatagramOutcome)
        requires
            now_ms <= u64::MAX - COOLDOWN_MS,
        ensures
            r == outcome_of(classify(raw@), now_ms),
            final(self).pending_saves@ == schedule(
                old(self).pending_saves@,
                classify(raw@),
                now_ms,
            ),
    {
        let cmd = parse_cmd(raw);
        self.on_command(cmd, now_ms)
    }

    /// Takes out the saves due by `now_ms`, in order; one save is to be made
    /// for each. The others stay pending.
    pub fn take_due(&mut self, now_ms: u64) -> (r: Vec<u64>)
        ensures
            r@ == due(old(self).pending_saves@, now_ms),
            final(self).pending_saves@ == ahead(old(self).pending_saves@, now_ms),
    {
        let ghost p = self.pending_saves@;
        let mut taken: Vec<u64> = Vec::new();
        let mut kept: Vec<u64> = Vec::new();
        let mut i: usize = 0;
        while i < self.pending_saves.len()
            invariant
                self.pending_saves@ == p,
                0 <= i <= p.len(),
                taken@ == due(p.subrange(0, i as int), now_ms),
                kept@ == ahead(p.subrange(0, i as int), now_ms),
            decreases p.len() - i,
        {
            let d = self.pending_saves[i];
            proof {
                reveal(Seq::filter);
                let q = p.subrange(0, i + 1);
                assert(q.drop_last() =~= p.subrange(0, i as int));
                assert(q.last() == d);
            }
            if d <= now_ms {
                taken.push(d);
            } else {
                kept.push(d);
            }
            i = i + 1;
        }
        proof {
            assert(p.subrange(0, p.len() as int) =~= p);
        }
        self.pending_saves = kept;
        taken
    }

    /// The earliest time at which a pending save is due, if any is pending.
    pub fn next_due(&self) -> (r: Option<u64>)
        ensures
            r is None <==> self.pending_saves@.len() == 0,
            r matches Some(m) ==> self.pending_saves@.contains(m) && forall|i: int|
                0 <= i < self.pending_saves@.len() ==> m <= self.pending_saves@[i],
    {
        if self.pending_saves.len() == 0 {
            return None;
        }
        let mut m = self.pending_saves[0];
        let mut i: usize = 1;
        while i < self.pending_saves.len()
            invariant
                1 <= i <= self.pending_saves@.len(),
                self.pending_saves@.contains(m),
                forall|j: int| 0 <= j < i ==> m <= self.pending_saves@[j],
            decreases self.pending_saves@.len() - i,
        {
            if self.pending_saves[i] < m {
                m = self.pending_saves[i];
            }
            i = i + 1;
        }
        Some(m)
    }
}

/// A capture command at time `t` schedules exactly one save, due a cool-down
/// later: a check at `now` takes it out exactly when `now` has reached
/// `t + COOLDOWN_MS`, and leaves it pending otherwise; every save taken out is
/// due, and each pending save is either taken out or kept, never both.
pub proof fn lemma_save_after_cooldown(pending: Seq<u64>, t: u64, now: u64)
    requires
        t <= u64::MAX - COOLDOWN_MS,
    ensures
        ({
            let p = schedule(pending, Ok(MugiCmd::Scored), t);
            let d = (t + COOLDOWN_MS) as u64;
            &&& p == pending.push(d)
            &&& due(p, now) == if t + COOLDOWN_MS <= now {
                due(pending, now).push(d)
            } else {
                due(pending, now)
            }
            &&& ahead(p, now) == if t + COOLDOWN_MS <= now {
                ahead(pending, now)
            } else {
                ahead(pending, now).push(d)
            }
        }),
        forall|i: int| 0 <= i < due(pending, now).len() ==> due(pending, now)[i] <= now,
        due(pending, now).len() + ahead(pending, now).len() == pending.len(),
{
    reveal(Seq::filter);
    let d = (t + COOLDOWN_MS) as u64;
    let p = pending.push(d);
    assert(p.drop_last() =~= pending);
    lemma_due_partition(pending, now);
}

proof fn lemma_due_partition(p: Seq<u64>, now: u64)
    ensures
        forall|i: int| 0 <= i < due(p, now).len() ==> due(p, now)[i] <= now,
        due(p, now).len() + ahead(p, now).len() == p.len(),
    decreases p.len(),
{
    reveal(Seq::filter);
    if p.len() > 0 {
        lemma_due_partition(p.drop_last(), now);
        let sub = due(p.drop_last(), now);
        assert forall|i: int| 0 <= i < due(p, now).len() implies due(p, now)[i] <= now by {
            if i < sub.len() {
                assert(due(p, now)[i] == sub[i]);
            }
        }
    }
}

} // verus!
