use rl_replay::obs::{
    ControlError, Descriptor, Obs, Reply, Request, SceneItem, Stage, Step, OVERLAY_SOURCE_NAME,
};

/// A backend kept in memory, recording every request it is sent.
struct FakeBackend {
    buffer_active: bool,
    inputs: Vec<String>,
    scene: String,
    items: Vec<SceneItem>,
    playlist: Vec<String>,
    sent: Vec<Request>,
}

impl FakeBackend {
    fn new(buffer_active: bool) -> FakeBackend {
        FakeBackend {
            buffer_active,
            inputs: Vec::new(),
            scene: String::from("Main"),
            items: Vec::new(),
            playlist: Vec::new(),
            sent: Vec::new(),
        }
    }

    fn respond(&mut self, req: Request) -> Reply {
        let reply = match &req {
            Request::Connect(_) => Reply::Done,
            Request::GetReplayBufferStatus => Reply::Status(self.buffer_active),
            Request::StartReplayBuffer => {
                self.buffer_active = true;
                Reply::Done
            }
            Request::SaveReplayBuffer => Reply::Done,
            Request::ListOverlayInputs => Reply::Inputs(self.inputs.clone()),
            Request::GetCurrentScene => Reply::Scene(self.scene.clone()),
            Request::CreateOverlaySource { .. } => {
                self.inputs.push(OVERLAY_SOURCE_NAME.to_string());
                self.items.push(SceneItem { id: 7, source_name: OVERLAY_SOURCE_NAME.to_string() });
                Reply::Done
            }
            Request::SetOverlayPlaylist { paths } => {
                self.playlist = paths.clone();
                Reply::Done
            }
            Request::ListSceneItems { .. } => Reply::SceneItems(
                self.items
                    .iter()
                    .map(|i| SceneItem { id: i.id, source_name: i.source_name.clone() })
                    .collect(),
            ),
            Request::EnableSceneItem { .. } => Reply::Done,
        };
        self.sent.push(req);
        reply
    }

    fn count(&self, f: fn(&Request) -> bool) -> usize {
        self.sent.iter().filter(|r| f(r)).count()
    }
}

fn drive(obs: &mut Obs, backend: &mut FakeBackend, first: Step) -> Result<(), ControlError> {
    let mut step = first;
    loop {
        match step {
            Step::Send(req) => {
                let reply = backend.respond(req);
                step = obs.on_reply(reply);
            }
            Step::Finished(r) => return r,
        }
    }
}

fn connected(backend: &mut FakeBackend) -> Obs {
    let mut obs = Obs::new();
    let first = obs.connect(String::from("localhost"), 4455, None);
    assert_eq!(drive(&mut obs, backend, first), Ok(()));
    obs
}

#[test]
fn connect_records_descriptor() {
    let mut backend = FakeBackend::new(false);
    let obs = connected(&mut backend);
    assert_eq!(
        obs.set_event_listener(),
        Ok(Descriptor { host: String::from("localhost"), port: 4455, password: None })
    );
    assert_eq!(backend.sent.len(), 1);
}

#[test]
fn connect_failure_is_reported() {
    let mut obs = Obs::new();
    let first = obs.connect(String::from("h"), 1, Some(String::from("secret")));
    assert!(matches!(first, Step::Send(Request::Connect(_))));
    let r = obs.on_reply(Reply::Failed(String::from("auth")));
    assert_eq!(
        r,
        Step::Finished(Err(ControlError::Rejected { stage: Stage::Connect, message: String::from("auth") }))
    );
    assert_eq!(obs.set_event_listener(), Err(ControlError::NotConnected));
}

#[test]
fn second_connect_is_refused() {
    let mut backend = FakeBackend::new(false);
    let mut obs = connected(&mut backend);
    let again = obs.connect(String::from("other"), 1, None);
    assert_eq!(again, Step::Finished(Err(ControlError::AlreadyConnected)));
}

#[test]
fn operations_need_a_connection() {
    let mut obs = Obs::new();
    assert_eq!(obs.set_replay_buffer(), Step::Finished(Err(ControlError::NotConnected)));
    assert_eq!(obs.save_replay_buffer(), Step::Finished(Err(ControlError::NotConnected)));
    assert_eq!(obs.init_vlc_source(), Step::Finished(Err(ControlError::NotConnected)));
    assert_eq!(obs.play_vlc_source(vec![]), Step::Finished(Err(ControlError::NotConnected)));
    assert_eq!(obs.on_reply(Reply::Done), Step::Finished(Err(ControlError::NothingPending)));
}

#[test]
fn busy_session_refuses_another_operation() {
    let mut backend = FakeBackend::new(false);
    let mut obs = connected(&mut backend);
    assert_eq!(obs.set_replay_buffer(), Step::Send(Request::GetReplayBufferStatus));
    assert_eq!(obs.save_replay_buffer(), Step::Finished(Err(ControlError::Busy)));
}

#[test]
fn replay_buffer_started_once_over_two_checks() {
    let mut backend = FakeBackend::new(false);
    let mut obs = connected(&mut backend);
    let first = obs.set_replay_buffer();
    assert_eq!(drive(&mut obs, &mut backend, first), Ok(()));
    let second = obs.set_replay_buffer();
    assert_eq!(drive(&mut obs, &mut backend, second), Ok(()));
    assert_eq!(backend.count(|r| matches!(r, Request::StartReplayBuffer)), 1);
    assert_eq!(backend.count(|r| matches!(r, Request::GetReplayBufferStatus)), 2);
}

#[test]
fn active_replay_buffer_is_not_started() {
    let mut backend = FakeBackend::new(true);
    let mut obs = connected(&mut backend);
    let first = obs.set_replay_buffer();
    assert_eq!(drive(&mut obs, &mut backend, first), Ok(()));
    assert_eq!(backend.count(|r| matches!(r, Request::StartReplayBuffer)), 0);
}

#[test]
fn replay_buffer_status_failure_names_the_stage() {
    let mut backend = FakeBackend::new(false);
    let mut obs = connected(&mut backend);
    obs.set_replay_buffer();
    let r = obs.on_reply(Reply::Failed(String::from("down")));
    assert_eq!(
        r,
        Step::Finished(Err(ControlError::Rejected {
            stage: Stage::ReplayBufferStatus,
            message: String::from("down")
        }))
    );
}

#[test]
fn overlay_source_created_once() {
    let mut backend = FakeBackend::new(true);
    let mut obs = connected(&mut backend);
    let first = obs.init_vlc_source();
    assert_eq!(drive(&mut obs, &mut backend, first), Ok(()));
    assert!(backend.sent.contains(&Request::CreateOverlaySource { scene: String::from("Main") }));
    let second = obs.init_vlc_source();
    assert_eq!(drive(&mut obs, &mut backend, second), Ok(()));
    assert_eq!(backend.count(|r| matches!(r, Request::CreateOverlaySource { .. })), 1);
}

#[test]
fn existing_overlay_source_is_not_created() {
    let mut backend = FakeBackend::new(true);
    backend.inputs = vec![String::from("Camera"), OVERLAY_SOURCE_NAME.to_string()];
    let mut obs = connected(&mut backend);
    let first = obs.init_vlc_source();
    assert_eq!(drive(&mut obs, &mut backend, first), Ok(()));
    assert_eq!(backend.count(|r| matches!(r, Request::CreateOverlaySource { .. })), 0);
}

#[test]
fn play_replaces_playlist_and_enables_item() {
    let mut backend = FakeBackend::new(true);
    backend.items = vec![
        SceneItem { id: 3, source_name: String::from("Camera") },
        SceneItem { id: 9, source_name: OVERLAY_SOURCE_NAME.to_string() },
        SceneItem { id: 11, source_name: OVERLAY_SOURCE_NAME.to_string() },
    ];
    let mut obs = connected(&mut backend);
    let paths = vec![String::from("a.mp4"), String::from("b.mp4")];
    let first = obs.play_vlc_source(paths.clone());
    assert_eq!(drive(&mut obs, &mut backend, first), Ok(()));
    assert_eq!(backend.playlist, paths);
    assert_eq!(
        backend.sent.last(),
        Some(&Request::EnableSceneItem { scene: String::from("Main"), item_id: 9 })
    );
}

#[test]
fn play_without_overlay_in_scene_is_a_fault() {
    let mut backend = FakeBackend::new(true);
    let mut obs = connected(&mut backend);
    let first = obs.play_vlc_source(vec![String::from("a.mp4")]);
    assert_eq!(drive(&mut obs, &mut backend, first), Err(ControlError::OverlayNotInScene));
    assert_eq!(backend.count(|r| matches!(r, Request::EnableSceneItem { .. })), 0);
}

#[test]
fn mismatched_reply_is_reported() {
    let mut backend = FakeBackend::new(true);
    let mut obs = connected(&mut backend);
    obs.init_vlc_source();
    let r = obs.on_reply(Reply::Status(true));
    assert_eq!(r, Step::Finished(Err(ControlError::UnexpectedReply { stage: Stage::InputList })));
    assert_eq!(obs.save_replay_buffer(), Step::Send(Request::SaveReplayBuffer));
}
