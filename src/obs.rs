//! The remote-control session with the recording backend, as a state machine.
//!
//! The session never performs I/O itself. Each operation hands back the next
//! request to send; the caller sends it, and feeds the backend's reply to
//! `on_reply`, which hands back the next request or the operation's outcome.
use vstd::prelude::*;

verus! {

/// Name reserved for the playlist source that shows captured clips.
pub const OVERLAY_SOURCE_NAME: &'static str = "RL_REPLAY_VLC_SOURCE";

/// Where the backend listens, and the shared secret, if any.
#[derive(Debug, PartialEq, Eq)]
pub struct Descriptor {
    pub host: String,
    pub port: u16,
    pub password: Option<String>,
}

impl Descriptor {
    /// A copy of this descriptor.
    pub fn duplicate(&self) -> (r: Descriptor)
        ensures
            r == *self,
    {
        let password = match &self.password {
            Some(p) => Some(p.clone()),
            None => None,
        };
        Descriptor { host: self.host.clone(), port: self.port, password }
    }
}

/// An entry of a scene: the id of the entry and the name of its source.
#[derive(Debug, PartialEq, Eq)]
pub struct SceneItem {
    pub id: i64,
    pub source_name: String,
}

/// A request to the backend.
#[derive(Debug, PartialEq, Eq)]
pub enum Request {
    /// Open the request connection.
    Connect(Descriptor),
    GetReplayBufferStatus,
    StartReplayBuffer,
    SaveReplayBuffer,
    /// List the inputs of the playlist kind.
    ListOverlayInputs,
    GetCurrentScene,
    /// Create the reserved playlist source, disabled, in the given scene, with
    /// the fixed playback settings and an empty playlist.
    CreateOverlaySource { scene: String },
    /// Replace the playlist of the reserved source.
    SetOverlayPlaylist { paths: Vec<String> },
    ListSceneItems { scene: String },
    EnableSceneItem { scene: String, item_id: i64 },
}

/// The backend's reply to a request.
#[derive(Debug, PartialEq, Eq)]
pub enum Reply {
    /// Done, with nothing to report.
    Done,
    /// Whether the replay buffer is active.
    Status(bool),
    /// Names of the inputs listed.
    Inputs(Vec<String>),
    /// Name of the current scene.
    Scene(String),
    SceneItems(Vec<SceneItem>),
    /// The request failed, with the backend's message.
    Failed(String),
}

/// The request whose reply a session awaits.
#[derive(Clone, Copy, Debug, PartialEq, Eq, Structural)]
pub enum Stage {
    Connect,
    ReplayBufferStatus,
    ReplayBufferStart,
    ReplayBufferSave,
    InputList,
    CurrentScene,
    OverlayCreate,
    OverlayUpdate,
    SceneItemList,
    SceneItemEnable,
}

/// Why an operation of the session did not succeed.
#[derive(Debug, PartialEq, Eq)]
pub enum ControlError {
    /// No connection has been made yet.
    NotConnected,
    /// A connection was made already; a new session is needed for another.
    AlreadyConnected,
    /// Another operation still awaits a reply.
    Busy,
    /// A reply came while no operation awaited one.
    NothingPending,
    /// The backend refused a request.
    Rejected { stage: Stage, message: String },
    /// The reply does not answer the request that was sent.
    UnexpectedReply { stage: Stage },
    /// The reserved source is not placed in the current scene.
    OverlayNotInScene,
}

/// Where an operation in progress stands.
#[derive(Debug, PartialEq, Eq)]
pub enum Awaiting {
    Connecting(Descriptor),
    BufferStatus,
    BufferStart,
    Saving,
    OverlayInputs,
    OverlayScene,
    OverlayCreate,
    PlaylistUpdate,
    PlayScene,
    PlayItems(String),
    PlayEnable,
}

/// What an operation asks of its caller next.
#[derive(Debug, PartialEq, Eq)]
pub enum Step {
    Send(Request),
    Finished(Result<(), ControlError>),
}

/// One session with the backend: the endpoint, once connected, and the
/// operation in progress, if any.
#[derive(Debug, PartialEq, Eq)]
pub struct Obs {
    pub descriptor: Option<Descriptor>,
    pub pending: Option<Awaiting>,
}

pub open spec fn overlay_name() -> Seq<char> {
    OVERLAY_SOURCE_NAME@
}

/// Whether one of the listed names is the reserved one.
pub open spec fn has_overlay(names: Seq<String>) -> bool {
    exists|i: int| 0 <= i < names.len() && names[i]@ == overlay_name()
}

/// The id of the first entry whose source is the reserved one.
pub open spec fn overlay_item(items: Seq<SceneItem>) -> Option<i64>
    decreases items.len(),
{
    if items.len() == 0 {
        None
    } else if items[0].source_name@ == overlay_name() {
        Some(items[0].id)
    } else {
        overlay_item(items.drop_first())
    }
}

pub open spec fn stage_of(a: Awaiting) -> Stage {
    match a {
        Awaiting::Connecting(_) => Stage::Connect,
        Awaiting::BufferStatus => Stage::ReplayBufferStatus,
        Awaiting::BufferStart => Stage::ReplayBufferStart,
        Awaiting::Saving => Stage::ReplayBufferSave,
        Awaiting::OverlayInputs => Stage::InputList,
        Awaiting::OverlayScene => Stage::CurrentScene,
        Awaiting::OverlayCreate => Stage::OverlayCreate,
        Awaiting::PlaylistUpdate => Stage::OverlayUpdate,
        Awaiting::PlayScene => Stage::CurrentScene,
        Awaiting::PlayItems(_) => Stage::SceneItemList,
        Awaiting::PlayEnable => Stage::SceneItemEnable,
    }
}

/// A session can begin an operation once connected and idle.
pub open spec fn ready(s: Obs) -> bool {
    s.descriptor is Some && s.pending is None
}

/// Why a session that is not ready refuses to begin an operation.
pub open spec fn refusal(s: Obs) -> ControlError {
    if s.descriptor is None {
        ControlError::NotConnected
    } else {
        ControlError::Busy
    }
}

/// Beginning an operation: when ready, await `a` and send `req`; else refuse
/// and change nothing.
pub open spec fn begin(s: Obs, a: Awaiting, req: Request) -> (Obs, Step) {
    if ready(s) {
        (Obs { pending: Some(a), ..s }, Step::Send(req))
    } else {
        (s, Step::Finished(Err(refusal(s))))
    }
}

pub open spec fn done(s: Obs, r: Result<(), ControlError>) -> (Obs, Step) {
    (Obs { pending: None, ..s }, Step::Finished(r))
}

pub open spec fn proceed(s: Obs, a: Awaiting, req: Request) -> (Obs, Step) {
    (Obs { pending: Some(a), ..s }, Step::Send(req))
}

/// How a session answers a reply of the backend.
pub open spec fn after_reply(s: Obs, reply: Reply) -> (Obs, Step) {
    match s.pending {
        None => (s, Step::Finished(Err(ControlError::NothingPending))),
        Some(a) => match (a, reply) {
            (a, Reply::Failed(m)) => done(
                s,
                Err(ControlError::Rejected { stage: stage_of(a), message: m }),
            ),
            (Awaiting::Connecting(d), Reply::Done) => (
                Obs { descriptor: Some(d), pending: None },
                Step::Finished(Ok(())),
            ),
            (Awaiting::BufferStatus, Reply::Status(active)) => if active {
                done(s, Ok(()))
            } else {
                proceed(s, Awaiting::BufferStart, Request::StartReplayBuffer)
            },
            (Awaiting::BufferStart, Reply::Done) => done(s, Ok(())),
            (Awaiting::Saving, Reply::Done) => done(s, Ok(())),
            (Awaiting::OverlayInputs, Reply::Inputs(names)) => if has_overlay(names@) {
                done(s, Ok(()))
            } else {
                proceed(s, Awaiting::OverlayScene, Request::GetCurrentScene)
            },
            (Awaiting::OverlayScene, Reply::Scene(scene)) => proceed(
                s,
                Awaiting::OverlayCreate,
                Request::CreateOverlaySource { scene },
            ),
            (Awaiting::OverlayCreate, Reply::Done) => done(s, Ok(())),
            (Awaiting::PlaylistUpdate, Reply::Done) => proceed(
                s,
                Awaiting::PlayScene,
                Request::GetCurrentScene,
            ),
            (Awaiting::PlayScene, Reply::Scene(scene)) => proceed(
                s,
                Awaiting::PlayItems(scene),
                Request::ListSceneItems { scene },
            ),
            (Awaiting::PlayItems(scene), Reply::SceneItems(items)) => match overlay_item(items@) {
                Some(item_id) => proceed(
                    s,
                    Awaiting::PlayEnable,
                    Request::EnableSceneItem { scene, item_id },
                ),
                None => done(s, Err(ControlError::OverlayNotInScene)),
            },
            (Awaiting::PlayEnable, Reply::Done) => done(s, Ok(())),
            (a, _) => done(s, Err(ControlError::UnexpectedReply { stage: stage_of(a) })),
        },
    }
}

/// The requests a session sends while it hears `replies`, in order, until its
/// operation finishes.
pub open spec fn requests_after(s: Obs, replies: Seq<Reply>) -> Seq<Request>
    decreases replies.len(),
{
    if replies.len() == 0 {
        Seq::empty()
    } else {
        let (next, step) = after_reply(s, replies[0]);
        match step {
            Step::Send(req) => seq![req] + requests_after(next, replies.drop_first()),
            Step::Finished(_) => Seq::empty(),
        }
    }
}

/// The requests of an operation that began with `start` and then heard
/// `replies`.
pub open spec fn requests_of(start: (Obs, Step), replies: Seq<Reply>) -> Seq<Request> {
    match start.1 {
        Step::Send(req) => seq![req] + requests_after(start.0, replies),
        Step::Finished(_) => Seq::empty(),
    }
}

/// Beginning a connection: only a session that never connected, and awaits
/// nothing, sends the connect request.
pub open spec fn begin_connect(s: Obs, d: Descriptor) -> (Obs, Step) {
    if s.descriptor is Some {
        (s, Step::Finished(Err(ControlError::AlreadyConnected)))
    } else if s.pending is Some {
        (s, Step::Finished(Err(ControlError::Busy)))
    } else {
        (Obs { pending: Some(Awaiting::Connecting(d)), ..s }, Step::Send(Request::Connect(d)))
    }
}

fn lists_overlay(names: &Vec<String>) -> (r: bool)
    ensures
        r == has_overlay(names@),
{
    let reserved = OVERLAY_SOURCE_NAME.to_owned();
    let mut i: usize = 0;
    while i < names.len()
        invariant
            0 <= i <= names.len(),
            reserved@ == overlay_name(),
            forall|j: int| 0 <= j < i ==> names@[j]@ != overlay_name(),
        decreases names.len() - i,
    {
        if names[i] == reserved {
            return true;
        }
        i = i + 1;
    }
    false
}

fn find_overlay_item(items: &Vec<SceneItem>) -> (r: Option<i64>)
    ensures
        r == overlay_item(items@),
{
    let reserved = OVERLAY_SOURCE_NAME.to_owned();
    let mut i: usize = 0;
    assert(items@.subrange(0, items.len() as int) =~= items@);
    while i < items.len()
        invariant
            0 <= i <= items.len(),
            reserved@ == overlay_name(),
            overlay_item(items@) == overlay_item(items@.subrange(i as int, items.len() as int)),
        decreases items.len() - i,
    {
        assert(items@.subrange(i as int, items.len() as int).drop_first() =~= items@.subrange(
            i + 1,
            items.len() as int,
        ));
        if items[i].source_name == reserved {
            return Some(items[i].id);
        }
        i = i + 1;
    }
    None
}

impl Awaiting {
    /// The request whose reply is awaited.
    pub fn stage(&self) -> (r: Stage)
        ensures
            r == stage_of(*self),
    {
        match self {
            Awaiting::Connecting(_) => Stage::Connect,
            Awaiting::BufferStatus => Stage::ReplayBufferStatus,
            Awaiting::BufferStart => Stage::ReplayBufferStart,
            Awaiting::Saving => Stage::ReplayBufferSave,
            Awaiting::OverlayInputs => Stage::InputList,
            Awaiting::OverlayScene => Stage::CurrentScene,
            Awaiting::OverlayCreate => Stage::OverlayCreate,
            Awaiting::PlaylistUpdate => Stage::OverlayUpdate,
            Awaiting::PlayScene => Stage::CurrentScene,
            Awaiting::PlayItems(_) => Stage::SceneItemList,
            Awaiting::PlayEnable => Stage::SceneItemEnable,
        }
    }
}

impl Obs {
    /// A session that has not connected yet.
    pub fn new() -> (r: Obs)
        ensures
            r.descriptor is None,
            r.pending is None,
    {
        Obs { descriptor: None, pending: None }
    }

    /// Begins connecting to the backend at `host:port` with the optional
    /// shared secret. The connection is made once the backend answers `Done`.
    pub fn connect(&mut self, host: String, port: u16, password: Option<String>) -> (r: Step)
        ensures
            (*final(self), r) == begin_connect(*old(self), Descriptor { host, port, password }),
    {
        if self.descriptor.is_some() {
            return Step::Finished(Err(ControlError::AlreadyConnected));
        }
        if self.pending.is_some() {
            return Step::Finished(Err(ControlError::Busy));
        }
        let d = Descriptor { host, port, password };
        let req = Request::Connect(d.duplicate());
        self.pending = Some(Awaiting::Connecting(d));
        Step::Send(req)
    }

    fn begin_op(&mut self, a: Awaiting, req: Request) -> (r: Step)
        ensures
            (*final(self), r) == begin(*old(self), a, req),
    {
        if self.descriptor.is_none() {
            return Step::Finished(Err(ControlError::NotConnected));
        }
        if self.pending.is_some() {
            return Step::Finished(Err(ControlError::Busy));
        }
        self.pending = Some(a);
        Step::Send(req)
    }

    /// Makes sure the replay buffer is active: asks its status, and starts it
    /// only if it is not active.
    pub fn set_replay_buffer(&mut self) -> (r: Step)
        ensures
            (*final(self), r) == begin(
                *old(self),
                Awaiting::BufferStatus,
                Request::GetReplayBufferStatus,
            ),
    {
        self.begin_op(Awaiting::BufferStatus, Request::GetReplayBufferStatus)
    }

    /// Saves the replay buffer; the buffer is expected to be active.
    pub fn save_replay_buffer(&mut self) -> (r: Step)
        ensures
            (*final(self), r) == begin(*old(self), Awaiting::Saving, Request::SaveReplayBuffer),
    {
        self.begin_op(Awaiting::Saving, Request::SaveReplayBuffer)
    }

    /// Makes sure the reserved playlist source exists: lists the inputs of its
    /// kind, and creates it in the current scene only if none has its name.
    pub fn init_vlc_source(&mut self) -> (r: Step)
        ensures
            (*final(self), r) == begin(
                *old(self),
                Awaiting::OverlayInputs,
                Request::ListOverlayInputs,
            ),
    {
        self.begin_op(Awaiting::OverlayInputs, Request::ListOverlayInputs)
    }

    /// Shows the given clips: replaces the reserved source's playlist with
    /// `paths`, in order, then enables that source's entry in the current scene.
    pub fn play_vlc_source(&mut self, paths: Vec<String>) -> (r: Step)
        ensures
            (*final(self), r) == begin(
                *old(self),
                Awaiting::PlaylistUpdate,
                Request::SetOverlayPlaylist { paths },
            ),
    {
        self.begin_op(Awaiting::PlaylistUpdate, Request::SetOverlayPlaylist { paths })
    }

    /// The endpoint to open the event subscription on: a second connection to
    /// the same backend.
    pub fn set_event_listener(&self) -> (r: Result<Descriptor, ControlError>)
        ensures
            match self.descriptor {
                Some(d) => r == Ok::<Descriptor, ControlError>(d),
                None => r == Err::<Descriptor, ControlError>(ControlError::NotConnected),
            },
    {
        match &self.descriptor {
            Some(d) => Ok(d.duplicate()),
            None => Err(ControlError::NotConnected),
        }
    }

    /// Takes the backend's reply to the last request sent.
    pub fn on_reply(&mut self, reply: Reply) -> (r: Step)
        ensures
            (*final(self), r) == after_reply(*old(self), reply),
    {
        let mut taken: Option<Awaiting> = None;
        std::mem::swap(&mut self.pending, &mut taken);
        let a = match taken {
            None => return Step::Finished(Err(ControlError::NothingPending)),
            Some(a) => a,
        };
        let stage = a.stage();
        match (a, reply) {
            (_, Reply::Failed(message)) => {
                Step::Finished(Err(ControlError::Rejected { stage, message }))
            },
            (Awaiting::Connecting(d), Reply::Done) => {
                self.descriptor = Some(d);
                Step::Finished(Ok(()))
            },
            (Awaiting::BufferStatus, Reply::Status(active)) => {
                if active {
                    Step::Finished(Ok(()))
                } else {
                    self.pending = Some(Awaiting::BufferStart);
                    Step::Send(Request::StartReplayBuffer)
                }
            },
            (Awaiting::BufferStart, Reply::Done) => Step::Finished(Ok(())),
            (Awaiting::Saving, Reply::Done) => Step::Finished(Ok(())),
            (Awaiting::OverlayInputs, Reply::Inputs(names)) => {
                if lists_overlay(&names) {
                    Step::Finished(Ok(()))
                } else {
                    self.pending = Some(Awaiting::OverlayScene);
                    Step::Send(Request::GetCurrentScene)
                }
            },
            (Awaiting::OverlayScene, Reply::Scene(scene)) => {
                self.pending = Some(Awaiting::OverlayCreate);
                Step::Send(Request::CreateOverlaySource { scene })
            },
            (Awaiting::OverlayCreate, Reply::Done) => Step::Finished(Ok(())),
            (Awaiting::PlaylistUpdate, Reply::Done) => {
                self.pending = Some(Awaiting::PlayScene);
                Step::Send(Request::GetCurrentScene)
            },
            (Awaiting::PlayScene, Reply::Scene(scene)) => {
                let req = Request::ListSceneItems { scene: scene.clone() };
                self.pending = Some(Awaiting::PlayItems(scene));
                Step::Send(req)
            },
            (Awaiting::PlayItems(scene), Reply::SceneItems(items)) => {
                match find_overlay_item(&items) {
                    Some(item_id) => {
                        self.pending = Some(Awaiting::PlayEnable);
                        Step::Send(Request::EnableSceneItem { scene, item_id })
                    },
                    None => Step::Finished(Err(ControlError::OverlayNotInScene)),
                }
            },
            (Awaiting::PlayEnable, Reply::Done) => Step::Finished(Ok(())),
            (_, _) => Step::Finished(Err(ControlError::UnexpectedReply { stage })),
        }
    }
}

/// How many start requests for the replay buffer there are among `rs`.
pub open spec fn count_buffer_starts(rs: Seq<Request>) -> nat
    decreases rs.len(),
{
    if rs.len() == 0 {
        0
    } else {
        (if rs[0] is StartReplayBuffer {
            1nat
        } else {
            0nat
        }) + count_buffer_starts(rs.drop_first())
    }
}

/// How many create requests for the overlay source there are among `rs`.
pub open spec fn count_overlay_creates(rs: Seq<Request>) -> nat
    decreases rs.len(),
{
    if rs.len() == 0 {
        0
    } else {
        (if rs[0] is CreateOverlaySource {
            1nat
        } else {
            0nat
        }) + count_overlay_creates(rs.drop_first())
    }
}

proof fn lemma_count_starts_concat(a: Seq<Request>, b: Seq<Request>)
    ensures
        count_buffer_starts(a + b) == count_buffer_starts(a) + count_buffer_starts(b),
    decreases a.len(),
{
    if a.len() == 0 {
        assert(a + b =~= b);
    } else {
        assert((a + b).drop_first() =~= a.drop_first() + b);
        lemma_count_starts_concat(a.drop_first(), b);
    }
}

/// The requests of one replay-buffer check: the status query, then a start
/// request exactly when the first reply says the buffer is inactive.
pub proof fn lemma_replay_buffer_requests(s: Obs, replies: Seq<Reply>)
    requires
        ready(s),
    ensures
        requests_of(begin(s, Awaiting::BufferStatus, Request::GetReplayBufferStatus), replies)
            == if replies.len() > 0 && replies[0] == Reply::Status(false) {
            seq![Request::GetReplayBufferStatus, Request::StartReplayBuffer]
        } else {
            seq![Request::GetReplayBufferStatus]
        },
{
    let s1 = Obs { pending: Some(Awaiting::BufferStatus), ..s };
    if replies.len() > 0 {
        let (s2, step) = after_reply(s1, replies[0]);
        let rest = replies.drop_first();
        if replies[0] == Reply::Status(false) {
            if rest.len() > 0 {
                let (_, step2) = after_reply(s2, rest[0]);
                assert(step2 is Finished);
            }
            assert(requests_after(s2, rest) =~= Seq::<Request>::empty());
            assert(seq![Request::GetReplayBufferStatus] + (seq![Request::StartReplayBuffer] + requests_after(s2, rest))
                =~= seq![Request::GetReplayBufferStatus, Request::StartReplayBuffer]);
        } else {
            assert(step is Finished);
            assert(requests_after(s1, replies) =~= Seq::<Request>::empty());
            assert(seq![Request::GetReplayBufferStatus] + requests_after(s1, replies)
                =~= seq![Request::GetReplayBufferStatus]);
        }
    } else {
        assert(seq![Request::GetReplayBufferStatus] + requests_after(s1, replies)
            =~= seq![Request::GetReplayBufferStatus]);
    }
}

/// Making sure of the replay buffer twice in a row, the second time against a
/// backend that reports it active, sends one start request in all when the
/// first check heard that the buffer was inactive, and none otherwise.
pub proof fn lemma_replay_buffer_started_once(
    s1: Obs,
    s2: Obs,
    first: Seq<Reply>,
    later: Seq<Reply>,
)
    requires
        ready(s1),
        ready(s2),
    ensures
        count_buffer_starts(
            requests_of(begin(s1, Awaiting::BufferStatus, Request::GetReplayBufferStatus), first)
                + requests_of(
                begin(s2, Awaiting::BufferStatus, Request::GetReplayBufferStatus),
                seq![Reply::Status(true)] + later,
            ),
        ) == if first.len() > 0 && first[0] == Reply::Status(false) {
            1nat
        } else {
            0nat
        },
{
    let second = seq![Reply::Status(true)] + later;
    lemma_replay_buffer_requests(s1, first);
    lemma_replay_buffer_requests(s2, second);
    assert(second[0] == Reply::Status(true));
    let a = requests_of(begin(s1, Awaiting::BufferStatus, Request::GetReplayBufferStatus), first);
    let b = requests_of(begin(s2, Awaiting::BufferStatus, Request::GetReplayBufferStatus), second);
    lemma_count_starts_concat(a, b);
    assert(b.drop_first() =~= Seq::<Request>::empty());
    assert(count_buffer_starts(b.drop_first()) == 0);
    assert(count_buffer_starts(b) == 0);
    if first.len() > 0 && first[0] == Reply::Status(false) {
        assert(a.drop_first().drop_first() =~= Seq::<Request>::empty());
        assert(count_buffer_starts(a.drop_first().drop_first()) == 0);
        assert(count_buffer_starts(a.drop_first()) == 1);
    } else {
        assert(a.drop_first() =~= Seq::<Request>::empty());
        assert(count_buffer_starts(a.drop_first()) == 0);
    }
}

/// Making sure of the overlay source when the backend already lists a source
/// of the reserved name sends no create request.
pub proof fn lemma_overlay_not_recreated(s: Obs, names: Vec<String>, later: Seq<Reply>)
    requires
        ready(s),
        has_overlay(names@),
    ensures
        count_overlay_creates(
            requests_of(
                begin(s, Awaiting::OverlayInputs, Request::ListOverlayInputs),
                seq![Reply::Inputs(names)] + later,
            ),
        ) == 0,
{
    let s1 = Obs { pending: Some(Awaiting::OverlayInputs), ..s };
    let replies = seq![Reply::Inputs(names)] + later;
    assert(replies[0] == Reply::Inputs(names));
    assert(requests_after(s1, replies) =~= Seq::<Request>::empty());
    let rs = requests_of(begin(s, Awaiting::OverlayInputs, Request::ListOverlayInputs), replies);
    assert(rs =~= seq![Request::ListOverlayInputs]);
    assert(rs.drop_first() =~= Seq::<Request>::empty());
    assert(count_overlay_creates(rs.drop_first()) == 0);
}

} // verus!
