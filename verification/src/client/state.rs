//! The screens of the client and how it moves between them.

use vstd::prelude::*;

verus! {

/// The top-level screen of the client.
#[derive(Debug, Clone, Copy, PartialEq, Eq, Hash, Structural)]
pub enum AppState {
    /// Images and fonts are being loaded.
    AssetLoading,
    /// The player types the address of the server.
    Connecting,
    /// The client is connected and shows the table.
    Connected,
}

/// Where a connected client is.
#[derive(Debug, Clone, Copy, PartialEq, Eq, Hash, Structural)]
pub enum ConnectedState {
    InMenu,
    InCampaign,
    InSession,
}

impl Default for AppState {
    fn default() -> (s: AppState)
        ensures
            s == AppState::AssetLoading,
    {
        AppState::AssetLoading
    }
}

impl Default for ConnectedState {
    fn default() -> (s: ConnectedState)
        ensures
            s == ConnectedState::InMenu,
    {
        ConnectedState::InMenu
    }
}

/// How far along the client is: loading, then connecting, then connected.
pub open spec fn stage(s: AppState) -> nat {
    match s {
        AppState::AssetLoading => 0,
        AppState::Connecting => 1,
        AppState::Connected => 2,
    }
}

/// The screen after all assets have loaded: loading continues to connecting.
pub open spec fn spec_after_assets_loaded(s: AppState) -> AppState {
    match s {
        AppState::AssetLoading => AppState::Connecting,
        _ => s,
    }
}

/// The screen to switch to from the address prompt: on Enter, a client that
/// is connecting becomes connected; otherwise there is no switch.
pub open spec fn spec_address_prompt_switch(s: AppState, enter_pressed: bool) -> Option<
    AppState,
> {
    if enter_pressed && s == AppState::Connecting {
        Some(AppState::Connected)
    } else {
        None
    }
}

/// The screen once the asset collections have loaded.
pub fn after_assets_loaded(state: AppState) -> (r: AppState)
    ensures
        r == spec_after_assets_loaded(state),
{
    match state {
        AppState::AssetLoading => AppState::Connecting,
        other => other,
    }
}

/// The screen to switch to after a frame of the address prompt, given
/// whether Enter was pressed in it.
pub fn address_prompt_switch(state: AppState, enter_pressed: bool) -> (r: Option<AppState>)
    ensures
        r == spec_address_prompt_switch(state, enter_pressed),
{
    if enter_pressed {
        match state {
            AppState::Connecting => Some(AppState::Connected),
            _ => None,
        }
    } else {
        None
    }
}

/// The client never moves back: each switch leads to the same or a later
/// screen, and a switch to `Connected` comes only from `Connecting`.
pub proof fn screens_only_advance(s: AppState, enter_pressed: bool)
    ensures
        stage(spec_after_assets_loaded(s)) >= stage(s),
        spec_address_prompt_switch(s, enter_pressed) matches Some(t) ==> stage(t) > stage(s),
        spec_address_prompt_switch(s, enter_pressed) == Some(AppState::Connected) ==> s
            == AppState::Connecting,
        spec_after_assets_loaded(s) != s ==> s == AppState::AssetLoading,
{
}

} // verus!
