use vstd::prelude::*;

verus! {

/// How far the loading of the settings has come. The simulation runs only
/// once it is `Loaded`.
#[derive(Clone, Copy, Debug, PartialEq, Eq, Structural)]
pub enum LoaderState {
    Setup,
    Loading,
    Loaded,
}

impl Default for LoaderState {
    fn default() -> (state: LoaderState)
        ensures
            state == LoaderState::Setup,
    {
        LoaderState::Setup
    }
}

/// The state of the loader at the previous look.
#[derive(Clone, Copy, Debug, PartialEq, Eq, Structural)]
pub struct PreviousState(pub LoaderState);

/// Ends the setup: loading begins.
pub fn loader_setup_done(current_state: &mut LoaderState)
    ensures
        *final(current_state) == LoaderState::Loading,
{
    *current_state = LoaderState::Loading;
}

/// Takes note of what the asset server reports: once everything asked for is
/// loaded, so is the loader. Until then the state stays.
pub fn check_loaded(all_loaded: bool, current_state: &mut LoaderState)
    ensures
        *final(current_state) == if all_loaded {
            LoaderState::Loaded
        } else {
            *old(current_state)
        },
{
    if all_loaded {
        *current_state = LoaderState::Loaded;
    }
}

/// Tells whether loading has just begun: the state is `Loading` and was not
/// at the previous look. Remembers the state for the next look.
pub fn on_enter_loading(current_state: LoaderState, prev_state: &mut LoaderState) -> (run: bool)
    ensures
        run == (current_state == LoaderState::Loading && *old(prev_state) != LoaderState::Loading),
        *final(prev_state) == current_state,
{
    let result: bool = current_state == LoaderState::Loading && *prev_state != LoaderState::Loading;
    *prev_state = current_state;
    result
}

/// Tells whether what waits for `expected_state` may run now.
pub fn load_state_run_criteria(expected_state: LoaderState, current_state: LoaderState) -> (run: bool)
    ensures
        run == (current_state == expected_state),
{
    current_state == expected_state
}

} // verus!
