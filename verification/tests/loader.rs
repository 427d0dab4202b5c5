use platformer::loader::{
    check_loaded, load_state_run_criteria, loader_setup_done, on_enter_loading, LoaderState,
};

#[test]
fn the_loader_starts_in_setup() {
    assert_eq!(LoaderState::default(), LoaderState::Setup);
}

#[test]
fn setup_ends_in_loading() {
    let mut state = LoaderState::Setup;
    loader_setup_done(&mut state);
    assert_eq!(state, LoaderState::Loading);
}

#[test]
fn loading_ends_when_all_is_loaded() {
    let mut state = LoaderState::Loading;
    check_loaded(false, &mut state);
    assert_eq!(state, LoaderState::Loading);
    check_loaded(true, &mut state);
    assert_eq!(state, LoaderState::Loaded);
    check_loaded(false, &mut state);
    assert_eq!(state, LoaderState::Loaded);
}

#[test]
fn entering_loading_is_seen_once() {
    let mut prev = LoaderState::default();
    assert!(!on_enter_loading(LoaderState::Setup, &mut prev));
    assert_eq!(prev, LoaderState::Setup);
    assert!(on_enter_loading(LoaderState::Loading, &mut prev));
    assert_eq!(prev, LoaderState::Loading);
    assert!(!on_enter_loading(LoaderState::Loading, &mut prev));
    assert!(!on_enter_loading(LoaderState::Loaded, &mut prev));
    assert_eq!(prev, LoaderState::Loaded);
    assert!(on_enter_loading(LoaderState::Loading, &mut prev));
}

#[test]
fn a_system_runs_in_its_state_only() {
    let states = [LoaderState::Setup, LoaderState::Loading, LoaderState::Loaded];
    for expected in states {
        for current in states {
            assert_eq!(load_state_run_criteria(expected, current), expected == current);
        }
    }
}
