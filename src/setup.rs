use vstd::prelude::*;

verus! {

/// The application's lifecycle: assets load, a menu waits for the player,
/// then the world runs.
#[derive(Clone, Copy, Debug, PartialEq, Eq, Structural)]
pub enum AppState {
    Loading,
    Menu,
    Running,
}

/// What moves the lifecycle on.
#[derive(Clone, Copy, Debug, PartialEq, Eq, Structural)]
pub enum LifecycleEvent {
    /// Every asset the game needs has loaded.
    AssetsLoaded,
    /// The player pressed the play button.
    PlayPressed,
}

/// How far the asset server has got with one asset.
#[derive(Clone, Copy, Debug, PartialEq, Eq, Structural)]
pub enum LoadState {
    NotLoaded,
    Loading,
    Loaded,
    Failed,
}

/// The load state of each asset the game waits for.
#[derive(Clone, Copy, Debug, PartialEq, Eq, Structural)]
pub struct AssetStatus {
    pub font: LoadState,
    pub audio: LoadState,
    pub scene: LoadState,
}

pub open spec fn all_loaded(s: AssetStatus) -> bool {
    &&& s.font is Loaded
    &&& s.audio is Loaded
    &&& s.scene is Loaded
}

/// How a pointer over the play button stands.
#[derive(Clone, Copy, Debug, PartialEq, Eq, Structural)]
pub enum Interaction {
    Pressed,
    Hovered,
    Idle,
}

/// The look the play button's text takes.
#[derive(Clone, Copy, Debug, PartialEq, Eq, Structural)]
pub enum TextTint {
    /// The light-purple accent, while hovered.
    Highlighted,
    /// The ordinary pale grey.
    Plain,
}

impl AppState {
    /// The allowed transitions: loading to menu once assets are in, menu to
    /// running on play. Any other event leaves the state as it is.
    pub open spec fn next_spec(self, e: LifecycleEvent) -> AppState {
        match (self, e) {
            (AppState::Loading, LifecycleEvent::AssetsLoaded) => AppState::Menu,
            (AppState::Menu, LifecycleEvent::PlayPressed) => AppState::Running,
            _ => self,
        }
    }

    pub fn next(self, e: LifecycleEvent) -> (r: AppState)
        ensures
            r == self.next_spec(e),
    {
        match (self, e) {
            (AppState::Loading, LifecycleEvent::AssetsLoaded) => AppState::Menu,
            (AppState::Menu, LifecycleEvent::PlayPressed) => AppState::Running,
            _ => self,
        }
    }

    /// Movement runs in the running state only.
    pub fn runs_movement(&self) -> (r: bool)
        ensures
            r == (*self is Running),
    {
        matches!(*self, AppState::Running)
    }
}

/// Whether every asset the game waits for has loaded.
pub fn assets_ready(status: &AssetStatus) -> (r: bool)
    ensures
        r == all_loaded(*status),
{
    matches!(status.font, LoadState::Loaded) && matches!(status.audio, LoadState::Loaded)
        && matches!(status.scene, LoadState::Loaded)
}

/// The state after a loading check: the lifecycle moves on only once the
/// font, the music and the scene have all loaded.
pub fn check_loaded(state: AppState, status: &AssetStatus) -> (r: AppState)
    ensures
        r == (if all_loaded(*status) {
            state.next_spec(LifecycleEvent::AssetsLoaded)
        } else {
            state
        }),
{
    if assets_ready(status) {
        state.next(LifecycleEvent::AssetsLoaded)
    } else {
        state
    }
}

/// The play button's response: a press starts the game, hovering lights
/// the text up, leaving it puts the text back. Returns the next state and,
/// where the text changes, its new tint.
pub fn handle_play_button(state: AppState, interaction: Interaction) -> (r: (
    AppState,
    Option<TextTint>,
))
    ensures
        r == (match interaction {
            Interaction::Pressed => (state.next_spec(LifecycleEvent::PlayPressed), None),
            Interaction::Hovered => (state, Some(TextTint::Highlighted)),
            Interaction::Idle => (state, Some(TextTint::Plain)),
        }),
{
    match interaction {
        Interaction::Pressed => (state.next(LifecycleEvent::PlayPressed), None),
        Interaction::Hovered => (state, Some(TextTint::Highlighted)),
        Interaction::Idle => (state, Some(TextTint::Plain)),
    }
}

} // verus!
