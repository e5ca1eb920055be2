//! The screens and the clicks that lead from one to the next.

use vstd::prelude::*;
use crate::geometry::{Point, Rect};

verus! {

/// The screen that is showing.
#[derive(Clone, Copy, Debug, PartialEq, Eq, Structural)]
pub enum GameState {
    Menu,
    Settings,
    Playing,
    GameOver,
}

/// Where the clickable and hover-sensitive elements of the screens are.
#[derive(Clone, Copy, Debug, PartialEq, Eq, Structural)]
pub struct Layout {
    /// The title on the menu.
    pub title: Rect,
    /// The play button on the menu.
    pub play_button: Rect,
    /// The gear on the menu that opens the settings.
    pub settings_button: Rect,
    /// The banner on the game-over screen.
    pub game_over_text: Rect,
    /// The play-again button on the game-over screen.
    pub play_again_button: Rect,
    /// The button on the game-over screen that leads back to the menu.
    pub menu_button: Rect,
}

/// What a click leads to: the screen to show next, and whether a new game
/// has to be set up on the way.
#[derive(Clone, Copy, Debug, PartialEq, Eq, Structural)]
pub struct Transition {
    pub state: GameState,
    pub reset: bool,
}

impl GameState {
    /// The transition that a click at `at` causes on this screen.
    ///
    /// On the menu the play button starts a new game and, failing that, the
    /// gear opens the settings. On the game-over screen the play-again
    /// button starts a new game and, failing that, the menu button leads
    /// back to the menu. Clicks do nothing while playing, and nothing leads
    /// out of the settings.
    pub open spec fn after_click(self, layout: Layout, at: Point) -> Transition {
        match self {
            GameState::Menu => if layout.play_button.holds(at) {
                Transition { state: GameState::Playing, reset: true }
            } else if layout.settings_button.holds(at) {
                Transition { state: GameState::Settings, reset: false }
            } else {
                Transition { state: GameState::Menu, reset: false }
            },
            GameState::GameOver => if layout.play_again_button.holds(at) {
                Transition { state: GameState::Playing, reset: true }
            } else if layout.menu_button.holds(at) {
                Transition { state: GameState::Menu, reset: false }
            } else {
                Transition { state: GameState::GameOver, reset: false }
            },
            GameState::Settings => Transition { state: GameState::Settings, reset: false },
            GameState::Playing => Transition { state: GameState::Playing, reset: false },
        }
    }

    /// Dispatches a click at `at` on this screen.
    pub fn handle_click(self, layout: &Layout, at: Point) -> (transition: Transition)
        ensures
            transition == self.after_click(*layout, at),
    {
        match self {
            GameState::Menu => {
                if layout.play_button.contains(at) {
                    Transition { state: GameState::Playing, reset: true }
                } else if layout.settings_button.contains(at) {
                    Transition { state: GameState::Settings, reset: false }
                } else {
                    Transition { state: GameState::Menu, reset: false }
                }
            },
            GameState::GameOver => {
                if layout.play_again_button.contains(at) {
                    Transition { state: GameState::Playing, reset: true }
                } else if layout.menu_button.contains(at) {
                    Transition { state: GameState::Menu, reset: false }
                } else {
                    Transition { state: GameState::GameOver, reset: false }
                }
            },
            GameState::Settings => Transition { state: GameState::Settings, reset: false },
            GameState::Playing => Transition { state: GameState::Playing, reset: false },
        }
    }
}

/// A new game is set up exactly on the clicks that enter `Playing`, and
/// those come only from the menu and the game-over screen.
pub proof fn lemma_reset_iff_entering_play(state: GameState, layout: Layout, at: Point)
    ensures
        state.after_click(layout, at).reset <==> state != GameState::Playing && state.after_click(
            layout,
            at,
        ).state == GameState::Playing,
        state.after_click(layout, at).reset ==> state == GameState::Menu || state
            == GameState::GameOver,
{
}

} // verus!
