use test_runner::{Emission, InstallAction, Level, LevelFilter, TeeState};

#[test]
fn new_tee_is_uninitialized() {
    let state = TeeState::new();
    assert_eq!(state, TeeState::Uninitialized);
    assert!(!state.is_installed());
}

#[test]
fn uninitialized_tee_sends_nothing() {
    let state = TeeState::new();
    assert_eq!(state.log(Level::Error, "my_module", "lost"), None);
}

#[test]
fn first_install_initializes() {
    let mut state = TeeState::new();
    let action = state.install(vec![("my_module", LevelFilter::Info)]);
    assert_eq!(action, InstallAction::Initialize);
    assert!(state.is_installed());
    assert_eq!(state, TeeState::Installed(vec![("my_module", LevelFilter::Info)]));
}

#[test]
fn second_install_is_skipped_and_keeps_the_first_filter() {
    let mut state = TeeState::new();
    assert_eq!(state.install(vec![("my_module", LevelFilter::Info)]), InstallAction::Initialize);
    let once = state.clone();
    assert_eq!(state.install(vec![("my_module", LevelFilter::Trace)]), InstallAction::Skip);
    assert_eq!(state, once);
    assert_eq!(state.log(Level::Debug, "my_module", "hidden"), None);
    assert_eq!(
        state.log(Level::Info, "my_module", "shown"),
        once.log(Level::Info, "my_module", "shown")
    );
}

#[test]
fn debug_record_is_dropped_and_info_record_is_teed_once() {
    let mut state = TeeState::new();
    state.install(vec![("my_module", LevelFilter::Info)]);
    assert_eq!(state.log(Level::Debug, "my_module", "too verbose"), None);
    assert_eq!(
        state.log(Level::Info, "my_module", "just right"),
        Some(Emission {
            console: "INFO my_module just right\n".to_string(),
            sink: "INFO my_module just right".to_string(),
        })
    );
}

#[test]
fn installed_tee_with_duplicate_overrides_filters_by_the_last() {
    let mut state = TeeState::new();
    state.install(vec![("a", LevelFilter::Warn), ("a", LevelFilter::Error)]);
    assert_eq!(state.log(Level::Warn, "a", "dropped"), None);
    assert_eq!(
        state.log(Level::Error, "a", "kept"),
        Some(Emission { console: "ERROR a kept\n".to_string(), sink: "ERROR a kept".to_string() })
    );
}

#[test]
fn installed_tee_without_overrides_tees_errors_only() {
    let mut state = TeeState::new();
    state.install(Vec::new());
    assert_eq!(state.log(Level::Warn, "node", "dropped"), None);
    assert_eq!(
        state.log(Level::Error, "node", "kept"),
        Some(Emission { console: "ERROR node kept\n".to_string(), sink: "ERROR node kept".to_string() })
    );
}

#[test]
fn installed_tee_keeps_the_default_for_targets_without_an_override() {
    let mut state = TeeState::new();
    state.install(vec![("my_module", LevelFilter::Info)]);
    assert_eq!(state.log(Level::Warn, "other", "dropped"), None);
    assert_eq!(
        state.log(Level::Error, "other", "kept"),
        Some(Emission { console: "ERROR other kept\n".to_string(), sink: "ERROR other kept".to_string() })
    );
}
