use aicap_handshake::secret::TokenCell;
use aicap_handshake::supervisor::{
    DeliveryStep, Phase, SpawnOutcome, SpawnStep, StartStep, Supervisor, SIDECAR_NAME,
    STOP_GRACE_MILLIS,
};
use aicap_handshake::token_file::TokenFileRequest;

const PATH: &str = "/tmp/aicap-token-0123456789abcdef0123456789abcdef.txt";

fn begin(supervisor: &Supervisor, cell: &mut TokenCell) -> Option<TokenFileRequest> {
    match supervisor.start_backend(cell) {
        Ok(StartStep::Deliver(request)) => Some(request),
        Ok(StartStep::Nothing) => None,
        Err(error) => panic!("no random bytes: {}", error.cause),
    }
}

fn running() -> (Supervisor, TokenCell) {
    let mut supervisor = Supervisor::new();
    let mut cell = TokenCell::new();
    assert!(begin(&supervisor, &mut cell).is_some());
    assert!(matches!(supervisor.token_file_written(PATH.to_string()), DeliveryStep::Spawn(_)));
    assert!(matches!(supervisor.spawn_finished(SpawnOutcome::Spawned), SpawnStep::Supervise));
    (supervisor, cell)
}

#[test]
fn new_supervisor_has_started_nothing() {
    let supervisor = Supervisor::new();
    assert_eq!(supervisor.phase(), Phase::NotStarted);
    assert_eq!(supervisor.token_file(), None);
}

#[test]
fn constants_are_the_fixed_ones() {
    assert_eq!(SIDECAR_NAME, "aicap-backend");
    assert_eq!(STOP_GRACE_MILLIS, 100);
}

#[test]
fn first_start_asks_for_the_token_to_be_delivered() {
    let supervisor = Supervisor::new();
    let mut cell = TokenCell::new();
    let request = begin(&supervisor, &mut cell).expect("a start has work to do");
    assert_eq!(request.contents.len(), 64);
    assert!(request.contents.chars().all(|c| matches!(c, '0'..='9' | 'a'..='f')));
    assert!(request.file_name.starts_with("aicap-token-"));
    assert!(request.file_name.ends_with(".txt"));
    assert_eq!(request.file_name.len(), 48);
    assert_eq!(request.mode, 0o600);
    assert!(request.exclusive);
    assert_eq!(supervisor.phase(), Phase::NotStarted);
    assert_eq!(supervisor.token_file(), None);
}

#[test]
fn start_delivers_the_token_of_the_process() {
    let supervisor = Supervisor::new();
    let mut cell = TokenCell::new();
    let token = aicap_handshake::secret::get_api_token(&mut cell).ok();
    let request = begin(&supervisor, &mut cell).expect("a start has work to do");
    assert_eq!(Some(request.contents), token);
}

#[test]
fn written_token_file_leads_to_the_spawn() {
    let mut supervisor = Supervisor::new();
    match supervisor.token_file_written(PATH.to_string()) {
        DeliveryStep::Spawn(request) => {
            assert_eq!(request.sidecar, "aicap-backend");
            assert_eq!(request.variable, "AICAP_API_TOKEN_FILE");
            assert_eq!(request.token_file, PATH);
        }
        DeliveryStep::Discard(_) => panic!("the file was waited for"),
    }
    assert_eq!(supervisor.phase(), Phase::NotStarted);
    assert_eq!(supervisor.token_file(), Some(PATH.to_string()));
}

#[test]
fn full_lifecycle() {
    let mut supervisor = Supervisor::new();
    let mut cell = TokenCell::new();
    let request = begin(&supervisor, &mut cell).expect("a start has work to do");
    assert_eq!(request.mode & 0o077, 0);
    assert!(matches!(supervisor.token_file_written(PATH.to_string()), DeliveryStep::Spawn(_)));
    assert!(matches!(supervisor.spawn_finished(SpawnOutcome::Spawned), SpawnStep::Supervise));
    assert_eq!(supervisor.phase(), Phase::Running);
    assert_eq!(supervisor.token_file(), Some(PATH.to_string()));

    let plan = supervisor.stop_backend();
    assert!(plan.terminate);
    assert_eq!(plan.grace_millis, 100);
    assert_eq!(plan.remove, Some(PATH.to_string()));
    assert_eq!(supervisor.phase(), Phase::Stopped);
    assert_eq!(supervisor.token_file(), None);
}

#[test]
fn start_while_running_spawns_nothing() {
    let (mut supervisor, mut cell) = running();
    assert!(begin(&supervisor, &mut cell).is_none());
    assert!(begin(&supervisor, &mut cell).is_none());
    assert_eq!(supervisor.phase(), Phase::Running);
    assert_eq!(supervisor.token_file(), Some(PATH.to_string()));

    match supervisor.token_file_written("/tmp/other.txt".to_string()) {
        DeliveryStep::Discard(stray) => assert_eq!(stray, "/tmp/other.txt"),
        DeliveryStep::Spawn(_) => panic!("a second spawn"),
    }
    assert!(matches!(supervisor.spawn_finished(SpawnOutcome::Spawned), SpawnStep::Ignore));
    assert!(matches!(supervisor.spawn_finished(SpawnOutcome::SpawnFailed), SpawnStep::Ignore));
    assert_eq!(supervisor.phase(), Phase::Running);
    assert_eq!(supervisor.token_file(), Some(PATH.to_string()));
}

#[test]
fn stop_when_never_started_terminates_nothing() {
    let mut supervisor = Supervisor::new();
    let plan = supervisor.stop_backend();
    assert!(!plan.terminate);
    assert_eq!(plan.remove, None);
    assert_eq!(supervisor.phase(), Phase::NotStarted);
    assert_eq!(supervisor.token_file(), None);
}

#[test]
fn missing_backend_leaves_the_supervisor_not_started() {
    let mut supervisor = Supervisor::new();
    let mut cell = TokenCell::new();
    assert!(begin(&supervisor, &mut cell).is_some());
    assert!(matches!(supervisor.token_file_written(PATH.to_string()), DeliveryStep::Spawn(_)));
    match supervisor.spawn_finished(SpawnOutcome::SidecarMissing) {
        SpawnStep::Degrade(remove) => assert_eq!(remove, Some(PATH.to_string())),
        _ => panic!("a missing backend degrades"),
    }
    assert_eq!(supervisor.phase(), Phase::NotStarted);
    assert_eq!(supervisor.token_file(), None);
}

#[test]
fn failed_spawn_leaves_the_supervisor_not_started() {
    let mut supervisor = Supervisor::new();
    let mut cell = TokenCell::new();
    assert!(begin(&supervisor, &mut cell).is_some());
    assert!(matches!(supervisor.token_file_written(PATH.to_string()), DeliveryStep::Spawn(_)));
    match supervisor.spawn_finished(SpawnOutcome::SpawnFailed) {
        SpawnStep::Degrade(remove) => assert_eq!(remove, Some(PATH.to_string())),
        _ => panic!("a failed spawn degrades"),
    }
    assert_eq!(supervisor.phase(), Phase::NotStarted);
    assert_eq!(supervisor.token_file(), None);
}

#[test]
fn start_can_be_tried_again_after_a_failed_spawn() {
    let mut supervisor = Supervisor::new();
    let mut cell = TokenCell::new();
    let first = begin(&supervisor, &mut cell).expect("a start has work to do");
    assert!(matches!(supervisor.token_file_written(PATH.to_string()), DeliveryStep::Spawn(_)));
    assert!(matches!(
        supervisor.spawn_finished(SpawnOutcome::SidecarMissing),
        SpawnStep::Degrade(_)
    ));
    let second = begin(&supervisor, &mut cell).expect("a start has work to do again");
    assert_eq!(first.contents, second.contents);
    assert_ne!(first.file_name, second.file_name);
    assert!(matches!(supervisor.token_file_written(PATH.to_string()), DeliveryStep::Spawn(_)));
    assert!(matches!(supervisor.spawn_finished(SpawnOutcome::Spawned), SpawnStep::Supervise));
    assert_eq!(supervisor.phase(), Phase::Running);
}

#[test]
fn stop_after_a_failed_spawn_finds_nothing_left() {
    let mut supervisor = Supervisor::new();
    assert!(matches!(supervisor.token_file_written(PATH.to_string()), DeliveryStep::Spawn(_)));
    assert!(matches!(supervisor.spawn_finished(SpawnOutcome::SpawnFailed), SpawnStep::Degrade(_)));
    let plan = supervisor.stop_backend();
    assert!(!plan.terminate);
    assert_eq!(plan.remove, None);
    assert_eq!(supervisor.phase(), Phase::NotStarted);
}

#[test]
fn stop_during_a_start_removes_the_token_file() {
    let mut supervisor = Supervisor::new();
    assert!(matches!(supervisor.token_file_written(PATH.to_string()), DeliveryStep::Spawn(_)));
    let plan = supervisor.stop_backend();
    assert!(!plan.terminate);
    assert_eq!(plan.remove, Some(PATH.to_string()));
    assert_eq!(supervisor.phase(), Phase::NotStarted);
    assert_eq!(supervisor.token_file(), None);
    assert!(matches!(supervisor.spawn_finished(SpawnOutcome::Spawned), SpawnStep::Ignore));
    assert_eq!(supervisor.phase(), Phase::NotStarted);
}

#[test]
fn second_stop_is_a_silent_no_op() {
    let (mut supervisor, _cell) = running();
    let first = supervisor.stop_backend();
    assert!(first.terminate);
    assert_eq!(first.remove, Some(PATH.to_string()));
    let second = supervisor.stop_backend();
    assert!(!second.terminate);
    assert_eq!(second.remove, None);
    assert_eq!(supervisor.phase(), Phase::Stopped);
    assert_eq!(supervisor.token_file(), None);
}

#[test]
fn stopped_is_final() {
    let (mut supervisor, mut cell) = running();
    supervisor.stop_backend();
    assert!(begin(&supervisor, &mut cell).is_none());
    match supervisor.token_file_written(PATH.to_string()) {
        DeliveryStep::Discard(stray) => assert_eq!(stray, PATH),
        DeliveryStep::Spawn(_) => panic!("a spawn after the stop"),
    }
    assert!(matches!(supervisor.spawn_finished(SpawnOutcome::Spawned), SpawnStep::Ignore));
    assert!(matches!(supervisor.spawn_finished(SpawnOutcome::SidecarMissing), SpawnStep::Ignore));
    assert_eq!(supervisor.phase(), Phase::Stopped);
    assert_eq!(supervisor.token_file(), None);
}

#[test]
fn start_in_progress_is_not_begun_twice() {
    let mut supervisor = Supervisor::new();
    let mut cell = TokenCell::new();
    assert!(begin(&supervisor, &mut cell).is_some());
    assert!(matches!(supervisor.token_file_written(PATH.to_string()), DeliveryStep::Spawn(_)));
    assert!(begin(&supervisor, &mut cell).is_none());
    match supervisor.token_file_written("/tmp/second.txt".to_string()) {
        DeliveryStep::Discard(stray) => assert_eq!(stray, "/tmp/second.txt"),
        DeliveryStep::Spawn(_) => panic!("two token files at once"),
    }
    assert_eq!(supervisor.token_file(), Some(PATH.to_string()));
}

#[test]
fn spawn_report_without_a_start_is_ignored() {
    let mut supervisor = Supervisor::new();
    assert!(matches!(supervisor.spawn_finished(SpawnOutcome::Spawned), SpawnStep::Ignore));
    assert!(matches!(supervisor.spawn_finished(SpawnOutcome::SpawnFailed), SpawnStep::Ignore));
    assert_eq!(supervisor.phase(), Phase::NotStarted);
    assert_eq!(supervisor.token_file(), None);
}
