use supervisor_core::lifecycle::AppState;
use supervisor_core::prefs::AppPreferences;

#[test]
fn start_ollama_spawns_once() {
    let mut state = AppState::new();
    // Not alive, no handle: a spawn is directed.
    assert!(state.start_ollama(false));
    state.ollama_spawned(42);
    assert_eq!(state.ollama.process, Some(42));
    assert!(state.ollama.started_by_us);
    // A second start with the handle held never directs another spawn,
    // whatever the probe says.
    assert!(!state.start_ollama(false));
    assert_eq!(state.ollama.process, Some(42));
    assert!(!state.start_ollama(true));
    assert_eq!(state.ollama.process, Some(42));
}

#[test]
fn start_already_alive_claims_no_ownership() {
    let mut state = AppState::new();
    // The service was already running: no spawn, no ownership.
    assert!(!state.start_ollama(true));
    assert!(!state.ollama.started_by_us);
    assert_eq!(state.ollama.process, None);
    // And the stop afterwards has nothing to kill.
    assert_eq!(state.stop_ollama(), None);
}

#[test]
fn stop_is_idempotent() {
    let mut state = AppState::new();
    assert!(state.start_ollama(false));
    state.ollama_spawned(7);
    assert_eq!(state.stop_ollama(), Some(7));
    assert_eq!(state.ollama.process, None);
    // The second stop finds no dangling handle and directs no kill.
    assert_eq!(state.stop_ollama(), None);
    assert_eq!(state.ollama.process, None);
}

fn state_with_owned_ollama(keep_on_exit: bool) -> AppState {
    let mut state = AppState::new();
    let _doc = state.update_preferences(AppPreferences {
        auto_start_ollama: true,
        keep_ollama_running_on_exit: keep_on_exit,
        backend_port: 8080,
    });
    assert!(state.start_ollama(false));
    state.ollama_spawned(11);
    assert!(state.start_backend_server(true, false).unwrap());
    state.backend_spawned(22);
    state
}

fn state_with_observed_ollama(keep_on_exit: bool) -> AppState {
    let mut state = AppState::new();
    let _doc = state.update_preferences(AppPreferences {
        auto_start_ollama: true,
        keep_ollama_running_on_exit: keep_on_exit,
        backend_port: 8080,
    });
    // The runtime was already alive: observed, never owned.
    assert!(!state.start_ollama(true));
    assert!(state.start_backend_server(true, false).unwrap());
    state.backend_spawned(22);
    state
}

#[test]
fn shutdown_stops_ollama_only_when_owned_and_not_kept() {
    // Owned, not kept: the one combination that kills the runtime.
    let mut state = state_with_owned_ollama(false);
    let plan = state.shutdown();
    assert_eq!(plan.backend_kill, Some(22));
    assert_eq!(plan.ollama_kill, Some(11));
    assert_eq!(state.backend.process, None);
    assert_eq!(state.ollama.process, None);

    // Owned, kept: the runtime stays.
    let mut state = state_with_owned_ollama(true);
    let plan = state.shutdown();
    assert_eq!(plan.backend_kill, Some(22));
    assert_eq!(plan.ollama_kill, None);
    assert_eq!(state.backend.process, None);
    assert_eq!(state.ollama.process, Some(11));

    // Not owned, not kept: nothing of ours to kill.
    let mut state = state_with_observed_ollama(false);
    let plan = state.shutdown();
    assert_eq!(plan.backend_kill, Some(22));
    assert_eq!(plan.ollama_kill, None);

    // Not owned, kept.
    let mut state = state_with_observed_ollama(true);
    let plan = state.shutdown();
    assert_eq!(plan.backend_kill, Some(22));
    assert_eq!(plan.ollama_kill, None);
}

#[test]
fn shutdown_twice_is_a_no_op() {
    let mut state = state_with_owned_ollama(false);
    let first = state.shutdown();
    assert_eq!(first.backend_kill, Some(22));
    assert_eq!(first.ollama_kill, Some(11));
    let second = state.shutdown();
    assert_eq!(second.backend_kill, None);
    assert_eq!(second.ollama_kill, None);
}

#[test]
fn backend_start_refused_without_backend_dir() {
    let mut state = AppState::new();
    let r = state.start_backend_server(false, false);
    assert_eq!(r.unwrap_err(), "Backend directory not found");
    assert_eq!(state.backend.process, None);
}

#[test]
fn failed_restart_leaves_backend_stopped() {
    let mut state = AppState::new();
    assert!(state.start_backend_server(true, false).unwrap());
    state.backend_spawned(9);
    // Restart: stop, then a start whose spawn fails.
    assert_eq!(state.stop_backend_server(), Some(9));
    assert!(state.start_backend_server(true, false).unwrap());
    // The spawn failed, so nothing is reported back; the backend is left
    // stopped, not wedged.
    let status = state.get_service_status(false, false);
    assert!(!status.backend.running);
    assert!(!status.backend.process_managed);
    assert_eq!(state.backend.process, None);
}

#[test]
fn service_status_reflects_fresh_probes_and_handles() {
    let mut state = AppState::new();
    assert!(state.start_ollama(false));
    state.ollama_spawned(3);
    let status = state.get_service_status(true, false);
    assert!(status.ollama.running);
    assert!(status.ollama.process_managed);
    assert!(!status.backend.running);
    assert!(!status.backend.process_managed);
    // `running` is the fresh probe, never the held handle: a held handle
    // with a dead service reports not running.
    let status = state.get_service_status(false, true);
    assert!(!status.ollama.running);
    assert!(status.ollama.process_managed);
    assert!(status.backend.running);
    assert!(!status.backend.process_managed);
}
