use replay_core::replay::Replay;
use replay_core::ui::{handle_load_result, AutoSaveEvery, GUIWindows, LoadError, LoadState};

#[test]
fn menu_buttons_toggle_their_windows() {
    let mut windows = GUIWindows::default();
    windows.handle_menu(true, false, true, false);
    assert!(windows.economy_open);
    assert!(!windows.settings_open);
    assert!(windows.load_open);
    assert!(!windows.network_open);
    windows.handle_menu(true, true, false, false);
    assert!(!windows.economy_open);
    assert!(windows.settings_open);
    assert!(windows.load_open);
}

#[test]
fn economy_shortcut_toggles_only_the_economy_window() {
    let mut windows = GUIWindows::default();
    windows.apply_economy_shortcut(true);
    assert!(windows.economy_open);
    windows.apply_economy_shortcut(false);
    assert!(windows.economy_open);
    windows.apply_economy_shortcut(true);
    assert!(!windows.economy_open);
    assert!(!windows.settings_open);
}

#[test]
fn load_state_records_what_was_found() {
    let state = LoadState::new(true);
    assert!(state.has_save);
    assert!(state.load_fail.is_empty());
    let state = LoadState::new(false);
    assert!(!state.has_save);
}

#[test]
fn loaded_replay_starts_playback() {
    let mut state = LoadState::new(true);
    let out = handle_load_result(
        &mut state,
        Ok(Replay { last_tick_recorded: 40 }),
        "loading failed".to_string(),
    );
    let (sim, driver) = out.expect("a loaded replay starts playback");
    assert_eq!(driver.current_tick, 1);
    assert_eq!(sim.get_tick(), 1);
    assert_eq!(driver.replay.last_tick_recorded, 40);
    assert!(state.load_fail.is_empty());
}

#[test]
fn corrupt_read_surfaces_the_failure_text() {
    let mut state = LoadState::new(true);
    let out = handle_load_result(&mut state, Err(LoadError::Corrupt), "loading failed".to_string());
    assert!(out.is_none());
    assert_eq!(state.load_fail, "loading failed");
    assert!(state.has_save);
}

#[test]
fn missing_replay_clears_has_save() {
    let mut state = LoadState::new(true);
    let out = handle_load_result(&mut state, Err(LoadError::NotFound), "no replay".to_string());
    assert!(out.is_none());
    assert_eq!(state.load_fail, "no replay");
    assert!(!state.has_save);
}

#[test]
fn autosave_periods_in_seconds() {
    assert_eq!(AutoSaveEvery::Never.as_seconds(), None);
    assert_eq!(AutoSaveEvery::OneMinute.as_seconds(), Some(60));
    assert_eq!(AutoSaveEvery::FiveMinutes.as_seconds(), Some(300));
}

#[test]
fn autosave_from_byte_and_labels() {
    assert_eq!(AutoSaveEvery::from(0u8), AutoSaveEvery::Never);
    assert_eq!(AutoSaveEvery::from(1u8), AutoSaveEvery::OneMinute);
    assert_eq!(AutoSaveEvery::from(2u8), AutoSaveEvery::FiveMinutes);
    assert_eq!(AutoSaveEvery::from(9u8), AutoSaveEvery::Never);
    assert_eq!(AutoSaveEvery::Never.label(), "Never");
    assert_eq!(AutoSaveEvery::OneMinute.label(), "Minute");
    assert_eq!(AutoSaveEvery::FiveMinutes.label(), "Five Minutes");
    assert_eq!(AutoSaveEvery::default(), AutoSaveEvery::FiveMinutes);
}
