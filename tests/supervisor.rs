use sidecar::greeting::greet;
use sidecar::supervisor::{
    classify_bind, Action, Event, OsErrorKind, Phase, ProbeResult, SupervisionOutcome,
    Supervisor, SupervisorError,
};
use sidecar::target::{api_server_target, ServiceTarget, TargetError, API_PORT};

fn target(path: &str, port: u16) -> ServiceTarget {
    ServiceTarget::new(path.to_string(), port, 5000).unwrap()
}

#[test]
fn greet_echoes_the_name() {
    assert_eq!(greet("Bo"), "Hello, Bo! You've been greeted from Biendeptrai!");
    assert_eq!(greet(""), "Hello, ! You've been greeted from Biendeptrai!");
}

#[test]
fn target_refuses_empty_path_and_port_zero() {
    assert_eq!(ServiceTarget::new(String::new(), 8008, 1).err(), Some(TargetError::EmptyPath));
    assert_eq!(ServiceTarget::new(String::new(), 0, 1).err(), Some(TargetError::EmptyPath));
    assert_eq!(ServiceTarget::new("/bin/true".to_string(), 0, 1).err(), Some(TargetError::PortZero));
    let t = ServiceTarget::new("/bin/true".to_string(), 65535, 7).unwrap();
    assert_eq!(t.path(), "/bin/true");
    assert_eq!(t.port(), 65535);
    assert_eq!(t.startup_timeout_ms(), 7);
}

#[test]
fn api_server_target_is_fixed() {
    let t = api_server_target();
    assert_eq!(t.path(), "bin/api/main");
    assert_eq!(t.port(), 8008);
    assert_eq!(API_PORT, 8008);
}

#[test]
fn bind_results_classify() {
    assert_eq!(classify_bind(Ok(())), ProbeResult::Free);
    assert_eq!(classify_bind(Err(OsErrorKind::AddrInUse)), ProbeResult::Occupied);
    assert_eq!(
        classify_bind(Err(OsErrorKind::PermissionDenied)),
        ProbeResult::ProbeFailed(OsErrorKind::PermissionDenied)
    );
    assert_eq!(classify_bind(Err(OsErrorKind::Other)), ProbeResult::ProbeFailed(OsErrorKind::Other));
}

#[test]
fn free_port_is_started() {
    let mut s = Supervisor::new(target("/bin/true", 8008));
    assert_eq!(s.step(Event::Start), Action::Probe { port: 8008 });
    assert_eq!(s.phase(), Phase::Probing);
    assert_eq!(s.step(Event::Probed(ProbeResult::Free)), Action::Spawn { probe_failure: None });
    assert_eq!(s.phase(), Phase::Spawning);
    assert_eq!(s.step(Event::SpawnSucceeded), Action::Finish(Ok(SupervisionOutcome::Started)));
    assert_eq!(s.phase(), Phase::Started);
    assert_eq!(s.target().path(), "/bin/true");
}

#[test]
fn missing_executable_fails_to_spawn() {
    let mut s = Supervisor::new(target("/nonexistent", 8008));
    s.step(Event::Start);
    s.step(Event::Probed(ProbeResult::Free));
    let a = s.step(Event::SpawnFailed(OsErrorKind::NotFound));
    assert_eq!(a, Action::Finish(Err(SupervisorError::SpawnFailed(OsErrorKind::NotFound))));
    assert_eq!(s.phase(), Phase::SpawnFailed(OsErrorKind::NotFound));
    assert_eq!(
        s.step(Event::Start),
        Action::Finish(Err(SupervisorError::SpawnFailed(OsErrorKind::NotFound)))
    );
}

#[test]
fn occupied_port_is_already_running() {
    let mut s = Supervisor::new(target("/bin/true", 8008));
    s.step(Event::Start);
    let a = s.step(Event::Probed(classify_bind(Err(OsErrorKind::AddrInUse))));
    assert_eq!(a, Action::Finish(Ok(SupervisionOutcome::AlreadyRunning)));
    assert_eq!(s.phase(), Phase::AlreadyRunning);
    assert_eq!(s.step(Event::Start), Action::Finish(Ok(SupervisionOutcome::AlreadyRunning)));
    assert_eq!(s.step(Event::SpawnSucceeded), Action::Finish(Ok(SupervisionOutcome::AlreadyRunning)));
}

#[test]
fn failed_probe_still_spawns() {
    let mut s = Supervisor::new(target("/bin/true", 9000));
    assert_eq!(s.step(Event::Start), Action::Probe { port: 9000 });
    let a = s.step(Event::Probed(ProbeResult::ProbeFailed(OsErrorKind::PermissionDenied)));
    assert_eq!(a, Action::Spawn { probe_failure: Some(OsErrorKind::PermissionDenied) });
}

#[test]
fn second_start_after_started_is_already_running() {
    let mut s = Supervisor::new(target("/bin/true", 8008));
    s.step(Event::Start);
    s.step(Event::Probed(ProbeResult::Free));
    s.step(Event::SpawnSucceeded);
    assert_eq!(s.step(Event::Start), Action::Finish(Ok(SupervisionOutcome::AlreadyRunning)));
    assert_eq!(s.phase(), Phase::Started);
}

#[test]
fn callers_arriving_mid_supervision_wait() {
    let mut s = Supervisor::new(target("/bin/true", 8008));
    s.step(Event::Start);
    assert_eq!(s.step(Event::Start), Action::Wait);
    assert_eq!(s.step(Event::SpawnSucceeded), Action::Wait);
    assert_eq!(s.phase(), Phase::Probing);
    s.step(Event::Probed(ProbeResult::Free));
    assert_eq!(s.step(Event::Start), Action::Wait);
    assert_eq!(s.step(Event::Probed(ProbeResult::Free)), Action::Wait);
    assert_eq!(s.phase(), Phase::Spawning);
}

#[test]
fn ten_callers_spawn_once() {
    let mut s = Supervisor::new(target("/bin/true", 8008));
    let mut spawns = 0;
    let mut started = 0;
    let mut pending: Vec<Event> = Vec::new();
    for _ in 0..10 {
        pending.push(Event::Start);
    }
    while let Some(e) = pending.pop() {
        match s.step(e) {
            Action::Probe { .. } => pending.insert(0, Event::Probed(ProbeResult::Free)),
            Action::Spawn { .. } => {
                spawns += 1;
                pending.insert(0, Event::SpawnSucceeded);
            }
            Action::Wait => pending.insert(0, Event::Start),
            Action::Finish(Ok(SupervisionOutcome::Started)) => started += 1,
            Action::Finish(_) => {}
        }
    }
    assert_eq!(spawns, 1);
    assert_eq!(started, 1);
    assert_eq!(s.phase(), Phase::Started);
}
