//! Top-level game flow and the one-time reveal of the on-screen touch controls.

use vstd::prelude::*;

verus! {

/// Top-level game flow: the game opens on a branded loading screen (which
/// shows the version) and then drops into gameplay.
#[derive(Clone, Copy, Debug, PartialEq, Eq, Hash, Structural)]
pub enum GameState {
    Loading,
    Playing,
}

impl Default for GameState {
    /// The game starts on the loading screen.
    fn default() -> (s: GameState)
        ensures
            s == GameState::Loading,
    {
        GameState::Loading
    }
}

impl GameState {
    /// The state after a frame: the loading screen gives way to gameplay once
    /// its timer has finished; gameplay never goes back to loading.
    pub fn advance(self, loading_finished: bool) -> (next: GameState)
        ensures
            next == (if self == GameState::Loading && loading_finished {
                GameState::Playing
            } else {
                self
            }),
            self == GameState::Playing ==> next == GameState::Playing,
    {
        match self {
            GameState::Loading => if loading_finished {
                GameState::Playing
            } else {
                GameState::Loading
            },
            GameState::Playing => GameState::Playing,
        }
    }
}

/// Whether the on-screen touch controls have been shown yet.
pub struct MobileControlsShown {
    shown: bool,
}

impl View for MobileControlsShown {
    type V = bool;

    closed spec fn view(&self) -> bool {
        self.shown
    }
}

impl MobileControlsShown {
    /// Not shown yet.
    pub fn new() -> (m: MobileControlsShown)
        ensures
            !m@,
    {
        MobileControlsShown { shown: false }
    }

    /// Whether the controls are shown.
    pub fn is_shown(&self) -> (shown: bool)
        ensures
            shown == self@,
    {
        self.shown
    }

    /// Called each frame with whether the screen is being touched. Returns true
    /// when the controls should be spawned now: the first time the screen is
    /// touched, and never again after that, so they never clutter a desktop
    /// session and never appear twice.
    pub fn reveal_on_touch(&mut self, touching: bool) -> (reveal: bool)
        ensures
            reveal == (!old(self)@ && touching),
            final(self)@ == (old(self)@ || touching),
    {
        if self.shown || !touching {
            return false;
        }
        self.shown = true;
        true
    }
}

impl Default for MobileControlsShown {
    /// Not shown yet.
    fn default() -> (m: MobileControlsShown)
        ensures
            !m@,
    {
        MobileControlsShown::new()
    }
}

} // verus!
