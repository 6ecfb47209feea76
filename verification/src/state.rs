//! Plain application state shared by the views.
use vstd::prelude::*;
use crate::text::{chars_of, string_from_chars};

verus! {

/// The channels that parts of the UI listen on for changes.
#[derive(Clone, Copy, Debug, PartialEq, Eq, Hash)]
pub enum AppChannel {
    Launcher,
    Settings,
    Notifications,
    AccountSwitcher,
    Game,
    Installs,
    MicrosoftLogin,
}

#[derive(Clone, Default, Debug)]
pub struct SettingsState {}

#[derive(Clone, Default, Debug)]
pub struct GameState {}

#[derive(Clone, Default, Debug)]
pub struct InstallState {}

/// Progress of a sign-in: `current` of `total` steps, and what is happening.
#[derive(Clone, Default, Debug)]
pub struct LoginProgress {
    pub current: u64,
    pub total: u64,
    pub label: String,
}

/// The view state that is kept between visits of a view.
pub struct PersistedView {
    pub name: String,
}

/// The persisted view state: the default view.
pub fn use_view_state() -> (v: PersistedView)
    ensures
        v.name@ == "default"@,
{
    PersistedView { name: string_from_chars(chars_of("default").as_slice()) }
}

pub fn use_settings_snapshot() -> SettingsState {
    SettingsState {  }
}

pub fn use_game_snapshot() -> GameState {
    GameState {  }
}

pub fn use_installs_snapshot() -> InstallState {
    InstallState {  }
}

/// The progress of an offline sign-in: there is none to report, as offline
/// accounts are created at once.
pub fn use_offline_login_status() -> (p: Option<LoginProgress>)
    ensures
        p is None,
{
    None
}

} // verus!
