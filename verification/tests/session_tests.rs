use replay_core::session::{
    ClientHandle, NetworkConnectionInfo, ServerHandle, SessionState, DEFAULT_HASH_CADENCE,
};
use replay_core::sim::{SeqSchedule, Simulation};

#[test]
fn empty_display_name_never_reaches_the_transport() {
    let state = SessionState::new();
    let info = NetworkConnectionInfo::new();
    assert!(info.name.is_empty());
    assert!(!state.may_start_server(&info));
    assert!(!state.may_start_client(&info));
}

#[test]
fn named_standalone_session_may_bind() {
    let state = SessionState::new();
    let mut info = NetworkConnectionInfo::new();
    info.name = "operator".to_string();
    assert!(state.may_start_server(&info));
    assert!(state.may_start_client(&info));
}

#[test]
fn only_standalone_sessions_start_new_roles() {
    let mut info = NetworkConnectionInfo::new();
    info.name = "operator".to_string();
    let serving = SessionState::Server(ServerHandle { token: 1 });
    assert!(!serving.may_start_server(&info));
    let connected = SessionState::Client(ClientHandle { token: 2 });
    assert!(!connected.may_start_client(&info));
}

#[test]
fn successful_bind_installs_the_server_role() {
    let mut state = SessionState::new();
    let mut info = NetworkConnectionInfo::new();
    info.name = "operator".to_string();
    info.error = "stale".to_string();
    state.install_server(Some(ServerHandle { token: 7 }), &mut info);
    assert_eq!(state, SessionState::Server(ServerHandle { token: 7 }));
    assert!(info.error.is_empty());
}

#[test]
fn failed_bind_stays_standalone_and_surfaces_an_error() {
    let mut state = SessionState::new();
    let mut info = NetworkConnectionInfo::new();
    info.name = "operator".to_string();
    state.install_server(None, &mut info);
    assert_eq!(state, SessionState::Standalone);
    assert_eq!(info.error, "could not start the server");
}

#[test]
fn failed_connect_stays_standalone_and_surfaces_an_error() {
    let mut state = SessionState::new();
    let mut info = NetworkConnectionInfo::new();
    info.name = "operator".to_string();
    info.ip = "10.0.0.1:2023".to_string();
    state.install_client(None, &mut info);
    assert_eq!(state, SessionState::Standalone);
    assert_eq!(info.error, "could not connect to the server");
}

#[test]
fn disconnect_reverts_to_standalone() {
    let mut state = SessionState::Client(ClientHandle { token: 3 });
    state.disconnect();
    assert_eq!(state, SessionState::Standalone);
    let mut state = SessionState::Server(ServerHandle { token: 4 });
    state.disconnect();
    assert_eq!(state, SessionState::Standalone);
}

#[test]
fn hash_display_hidden_takes_no_snapshot() {
    let mut info = NetworkConnectionInfo::new();
    let sim = Simulation::new();
    info.update_hash_cache(&sim);
    assert!(info.cached_hashes().is_none());
}

#[test]
fn empty_cache_fills_on_first_shown_update() {
    let mut info = NetworkConnectionInfo::new();
    assert_eq!(info.cadence, DEFAULT_HASH_CADENCE);
    let mut sim = Simulation::new();
    sim.set_subsystem_hash("economy".to_string(), 5);
    let mut schedule = SeqSchedule::default();
    sim.advance_one_tick(&mut schedule);
    info.set_show_hashes(true);
    // Tick 1 is off the default cadence, but the cache is still empty.
    info.update_hash_cache(&sim);
    let snap = info.cached_hashes().expect("cache should be filled");
    assert_eq!(snap.tick, 1);
    assert_eq!(snap.hash_of(&"economy".to_string()), Some(5));
}

#[test]
fn cache_is_kept_between_cadence_points() {
    let mut info = NetworkConnectionInfo::new();
    info.set_show_hashes(true);
    let mut sim = Simulation::new();
    sim.set_subsystem_hash("economy".to_string(), 5);
    info.update_hash_cache(&sim);
    let mut schedule = SeqSchedule::default();
    sim.advance_one_tick(&mut schedule);
    sim.set_subsystem_hash("economy".to_string(), 6);
    // Tick 1, cadence 100, cache full: the old snapshot stays.
    info.update_hash_cache(&sim);
    let snap = info.cached_hashes().expect("cache should remain");
    assert_eq!(snap.tick, 0);
    assert_eq!(snap.hash_of(&"economy".to_string()), Some(5));
}

#[test]
fn cadence_is_a_tunable_policy() {
    let mut info = NetworkConnectionInfo::new();
    info.set_show_hashes(true);
    info.set_hash_cadence(1);
    let mut sim = Simulation::new();
    sim.set_subsystem_hash("economy".to_string(), 5);
    info.update_hash_cache(&sim);
    let mut schedule = SeqSchedule::default();
    sim.advance_one_tick(&mut schedule);
    sim.set_subsystem_hash("economy".to_string(), 6);
    // Every tick falls on cadence 1, so the snapshot is retaken.
    info.update_hash_cache(&sim);
    let snap = info.cached_hashes().expect("cache should be retaken");
    assert_eq!(snap.tick, 1);
    assert_eq!(snap.hash_of(&"economy".to_string()), Some(6));
}
