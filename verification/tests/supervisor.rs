use sidecar_supervisor::config::{Config, DeploymentMode, Platform};
use sidecar_supervisor::error::SidecarError;
use sidecar_supervisor::handle::SidecarHandle;
use sidecar_supervisor::health::HealthStatus;
use sidecar_supervisor::launch::LaunchPlan;
use sidecar_supervisor::port::find_available_port;
use sidecar_supervisor::resolver::BaseDirectory;
use sidecar_supervisor::supervisor::{start_python_sidecar, Action, Event, Session};

/// A host that answers from a script and keeps a record of what it was asked.
struct Host {
    handle: SidecarHandle,
    current_dir: Result<String, String>,
    resource_root: Result<String, String>,
    files: Vec<String>,
    occupied: Vec<u16>,
    spawn: Result<(), String>,
    /// The status each port answers a probe with; a port not listed refuses.
    answering: Vec<(u16, u16)>,
    /// Whether a launched sidecar answers 200 from then on.
    launches_come_up: bool,
    asked: Vec<Action>,
    launched: Vec<LaunchPlan>,
}

fn host() -> Host {
    Host {
        handle: SidecarHandle::new(),
        current_dir: Ok("/src/app".to_string()),
        resource_root: Ok("/opt/app".to_string()),
        files: vec!["/opt/app/python/main.py".to_string(), "/src/app/python/main.py".to_string()],
        occupied: Vec::new(),
        spawn: Ok(()),
        answering: Vec::new(),
        launches_come_up: true,
        asked: Vec::new(),
        launched: Vec::new(),
    }
}

fn packaged() -> Config {
    Config { mode: DeploymentMode::Packaged, platform: Platform::Other }
}

fn carry_out(host: &mut Host, action: Action) -> Event {
    let event = match &action {
        Action::ReadCache => Event::Cache(host.handle.port()),
        Action::Probe { port, .. } => Event::ProbeAnswered(
            host.answering.iter().find(|(answering, _)| answering == port).map(|(_, status)| *status),
        ),
        Action::Locate(BaseDirectory::CurrentDirectory) => Event::Base(host.current_dir.clone()),
        Action::Locate(BaseDirectory::ResourceRoot) => Event::Base(host.resource_root.clone()),
        Action::CheckExists(path) => Event::Exists(host.files.contains(path)),
        Action::AllocatePort => {
            Event::PortScanned(find_available_port(|port| !host.occupied.contains(&port)))
        }
        Action::Spawn(plan) => {
            if host.spawn.is_ok() {
                host.launched.push(plan.clone());
                if host.launches_come_up {
                    host.answering.push((plan.port, 200));
                }
            }
            Event::Spawned(host.spawn.clone())
        }
        Action::Sleep { .. } => Event::Settled,
        Action::WriteCache(port) => {
            host.handle.store(*port);
            Event::Stored
        }
        Action::Done => unreachable!(),
    };
    host.asked.push(action);
    event
}

fn ensure_running(config: Config, host: &mut Host) -> Result<u16, SidecarError> {
    let mut session = Session::new(config);
    let mut action = session.request();
    loop {
        if action == Action::Done {
            return session.outcome().unwrap();
        }
        let event = carry_out(host, action);
        let next = start_python_sidecar(session, event);
        session = next.0;
        action = next.1;
    }
}

fn probe(port: u16) -> Action {
    Action::Probe {
        port,
        url: format!("http://localhost:{}/health", port),
        timeout_millis: 3000,
    }
}

#[test]
fn cold_start_returns_and_caches_the_first_port() {
    let mut host = host();
    assert_eq!(ensure_running(packaged(), &mut host), Ok(8765));
    assert_eq!(host.handle.port(), Some(8765));
    let plan = LaunchPlan {
        executable_path: "python3".to_string(),
        script_or_entry_path: "/opt/app/python/main.py".to_string(),
        working_directory: "/opt/app".to_string(),
        port: 8765,
    };
    assert_eq!(
        host.asked,
        vec![
            Action::ReadCache,
            Action::Locate(BaseDirectory::ResourceRoot),
            Action::CheckExists("/opt/app/python/main.py".to_string()),
            Action::CheckExists("/opt/app/python/python-dist/python".to_string()),
            Action::AllocatePort,
            Action::Spawn(plan.clone()),
            Action::Sleep { millis: 3000 },
            probe(8765),
            Action::WriteCache(8765),
        ]
    );
    assert_eq!(host.launched, vec![plan]);
}

#[test]
fn cold_start_in_development_uses_the_current_directory() {
    let mut host = host();
    let config = Config { mode: DeploymentMode::Development, platform: Platform::Other };
    assert_eq!(ensure_running(config, &mut host), Ok(8765));
    assert_eq!(host.asked[1], Action::Locate(BaseDirectory::CurrentDirectory));
    assert_eq!(host.launched[0].working_directory, "/src/app");
    assert_eq!(host.launched[0].script_or_entry_path, "/src/app/python/main.py");
}

#[test]
fn bundled_interpreter_is_launched_where_it_exists() {
    let mut host = host();
    host.files.push("/opt/app/python/python-dist/python".to_string());
    assert_eq!(ensure_running(packaged(), &mut host), Ok(8765));
    assert_eq!(host.launched[0].executable_path, "/opt/app/python/python-dist/python");
}

#[test]
fn healthy_cached_port_is_reused_every_time() {
    let mut host = host();
    host.handle.store(8770);
    host.answering.push((8770, 200));
    for _ in 0..5 {
        assert_eq!(ensure_running(packaged(), &mut host), Ok(8770));
    }
    assert_eq!(host.handle.port(), Some(8770));
    assert!(host.launched.is_empty());
    let mut expected = Vec::new();
    for _ in 0..5 {
        expected.push(Action::ReadCache);
        expected.push(probe(8770));
    }
    assert_eq!(host.asked, expected);
}

#[test]
fn second_call_reuses_what_the_first_started() {
    let mut host = host();
    assert_eq!(ensure_running(packaged(), &mut host), Ok(8765));
    let asked_by_first = host.asked.len();
    assert_eq!(ensure_running(packaged(), &mut host), Ok(8765));
    assert_eq!(host.asked[asked_by_first..], [Action::ReadCache, probe(8765)]);
    assert_eq!(host.launched.len(), 1);
}

#[test]
fn unreachable_cached_port_is_replaced() {
    let mut host = host();
    host.handle.store(8765);
    host.occupied.push(8765);
    assert_eq!(ensure_running(packaged(), &mut host), Ok(8766));
    assert_eq!(host.handle.port(), Some(8766));
    assert_eq!(host.asked[0], Action::ReadCache);
    assert_eq!(host.asked[1], probe(8765));
    assert_eq!(host.asked[2], Action::Locate(BaseDirectory::ResourceRoot));
    assert_eq!(host.asked.last(), Some(&Action::WriteCache(8766)));
    assert_eq!(host.launched.len(), 1);
}

#[test]
fn cached_port_that_answers_with_an_error_is_replaced() {
    let mut host = host();
    host.handle.store(8790);
    host.answering.push((8790, 500));
    assert_eq!(ensure_running(packaged(), &mut host), Ok(8765));
    assert_eq!(host.handle.port(), Some(8765));
}

#[test]
fn missing_script_fails_before_anything_is_bound_or_started() {
    let mut host = host();
    host.files.clear();
    assert_eq!(
        ensure_running(packaged(), &mut host),
        Err(SidecarError::ScriptNotFound("/opt/app/python/main.py".to_string()))
    );
    assert_eq!(
        host.asked,
        vec![
            Action::ReadCache,
            Action::Locate(BaseDirectory::ResourceRoot),
            Action::CheckExists("/opt/app/python/main.py".to_string()),
        ]
    );
    assert!(host.launched.is_empty());
    assert_eq!(host.handle.port(), None);
}

#[test]
fn missing_script_after_a_stale_port_leaves_the_handle_alone() {
    let mut host = host();
    host.files.clear();
    host.handle.store(8765);
    assert_eq!(
        ensure_running(packaged(), &mut host),
        Err(SidecarError::ScriptNotFound("/opt/app/python/main.py".to_string()))
    );
    assert_eq!(host.handle.port(), Some(8765));
    assert!(!host.asked.contains(&Action::AllocatePort));
}

#[test]
fn unknown_base_directory_ends_the_call() {
    let mut host = host();
    host.resource_root = Err("unknown path".to_string());
    assert_eq!(
        ensure_running(packaged(), &mut host),
        Err(SidecarError::BaseUnavailable {
            mode: DeploymentMode::Packaged,
            detail: "unknown path".to_string(),
        })
    );
    assert_eq!(host.asked, vec![Action::ReadCache, Action::Locate(BaseDirectory::ResourceRoot)]);
}

#[test]
fn refused_spawn_ends_the_call() {
    let mut host = host();
    host.spawn = Err("No such file or directory (os error 2)".to_string());
    assert_eq!(
        ensure_running(packaged(), &mut host),
        Err(SidecarError::SpawnFailed {
            command: "python3".to_string(),
            reason: "No such file or directory (os error 2)".to_string(),
        })
    );
    assert!(matches!(host.asked.last(), Some(Action::Spawn(_))));
    assert_eq!(host.handle.port(), None);
}

#[test]
fn sidecar_that_never_answers_is_unavailable() {
    let mut host = host();
    host.launches_come_up = false;
    assert_eq!(
        ensure_running(packaged(), &mut host),
        Err(SidecarError::SidecarUnavailable(HealthStatus::Unreachable))
    );
    assert_eq!(host.asked.last(), Some(&probe(8765)));
    assert_eq!(host.handle.port(), None);
    assert_eq!(host.launched.len(), 1);
}

#[test]
fn sidecar_that_answers_with_an_error_is_unavailable() {
    let mut host = host();
    host.launches_come_up = false;
    host.answering.push((8765, 503));
    assert_eq!(
        ensure_running(packaged(), &mut host),
        Err(SidecarError::SidecarUnavailable(HealthStatus::ErrorStatus(503)))
    );
    assert_eq!(host.handle.port(), None);
}

#[test]
fn failed_call_is_not_retried_but_the_next_call_starts_over() {
    let mut host = host();
    host.launches_come_up = false;
    assert!(ensure_running(packaged(), &mut host).is_err());
    assert_eq!(host.launched.len(), 1);
    host.launches_come_up = true;
    assert_eq!(ensure_running(packaged(), &mut host), Ok(8765));
    assert_eq!(host.launched.len(), 2);
}

#[test]
fn full_window_falls_back_to_the_default_port() {
    let mut host = host();
    host.occupied = (8765..=8799).collect();
    assert_eq!(ensure_running(packaged(), &mut host), Ok(8765));
    assert_eq!(host.launched[0].port, 8765);
}

#[test]
fn scan_skips_the_occupied_ports() {
    let mut host = host();
    host.occupied = (8765..=8770).collect();
    assert_eq!(ensure_running(packaged(), &mut host), Ok(8771));
    assert_eq!(host.launched[0].arguments()[1], "8771");
}

#[test]
fn report_that_answers_nothing_changes_nothing() {
    let session = Session::new(packaged());
    let (session, action) = start_python_sidecar(session, Event::Stored);
    assert_eq!(action, Action::ReadCache);
    let (session, action) = start_python_sidecar(session, Event::ProbeAnswered(Some(200)));
    assert_eq!(action, Action::ReadCache);
    assert_eq!(session.outcome(), None);
    let (session, action) = start_python_sidecar(session, Event::Cache(Some(8765)));
    assert_eq!(action, probe(8765));
    let (session, action) = start_python_sidecar(session, Event::Exists(true));
    assert_eq!(action, probe(8765));
    let (session, action) = start_python_sidecar(session, Event::ProbeAnswered(Some(200)));
    assert_eq!(action, Action::Done);
    assert_eq!(session.outcome(), Some(Ok(8765)));
    let (session, action) = start_python_sidecar(session, Event::Cache(None));
    assert_eq!(action, Action::Done);
    assert_eq!(session.outcome(), Some(Ok(8765)));
}

#[test]
fn outcome_is_unknown_until_the_call_is_over() {
    let session = Session::new(packaged());
    assert_eq!(session.outcome(), None);
    assert_eq!(session.request(), Action::ReadCache);
}

fn begin(config: Config) -> (Session, Action) {
    let session = Session::new(config);
    let action = session.request();
    (session, action)
}

/// Advances one of several calls in progress by one exchange.
fn take_turn(host: &mut Host, racer: &mut Option<(Session, Action)>) {
    let (session, action) = racer.take().unwrap();
    if action == Action::Done {
        *racer = Some((session, action));
    } else {
        let event = carry_out(host, action);
        *racer = Some(start_python_sidecar(session, event));
    }
}

#[test]
fn racing_cold_starts_both_return_a_healthy_port() {
    let mut host = host();
    let mut first = Some(begin(packaged()));
    let mut second = Some(begin(packaged()));
    // Both read the empty handle before either has stored anything.
    take_turn(&mut host, &mut first);
    take_turn(&mut host, &mut second);
    // The first gets as far as its launch; its sidecar holds port 8765 from then on.
    for _ in 0..5 {
        take_turn(&mut host, &mut first);
    }
    assert_eq!(host.launched.len(), 1);
    host.occupied.push(8765);
    // The second launches too, on the next port, and finishes first.
    for _ in 0..9 {
        take_turn(&mut host, &mut second);
    }
    for _ in 0..4 {
        take_turn(&mut host, &mut first);
    }
    let first = first.unwrap().0.outcome();
    let second = second.unwrap().0.outcome();
    assert_eq!(first, Some(Ok(8765)));
    assert_eq!(second, Some(Ok(8766)));
    assert_eq!(host.launched.len(), 2);
    // Both ports answer; the handle holds the one that was stored last.
    assert!(host.answering.contains(&(8765, 200)));
    assert!(host.answering.contains(&(8766, 200)));
    assert_eq!(host.handle.port(), Some(8765));
    let stores = host.asked.iter().filter(|action| matches!(action, Action::WriteCache(_))).count();
    assert_eq!(stores, 2);
}

#[test]
fn concurrent_callers_of_a_healthy_sidecar_all_reuse_it() {
    let mut host = host();
    host.handle.store(8765);
    host.answering.push((8765, 200));
    let mut callers: Vec<Option<(Session, Action)>> = Vec::new();
    for _ in 0..4 {
        callers.push(Some(begin(packaged())));
    }
    // Interleave: everyone reads, then everyone probes, in changing order.
    for index in [0, 1, 2, 3, 3, 1, 0, 2] {
        take_turn(&mut host, &mut callers[index]);
    }
    for caller in callers {
        let (session, action) = caller.unwrap();
        assert_eq!(action, Action::Done);
        assert_eq!(session.outcome(), Some(Ok(8765)));
    }
    assert!(host.launched.is_empty());
    let probes = host.asked.iter().filter(|action| matches!(action, Action::Probe { .. })).count();
    assert_eq!(probes, 4);
    assert_eq!(host.handle.port(), Some(8765));
}
