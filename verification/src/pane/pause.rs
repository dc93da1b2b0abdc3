//! The pause screen, which shows three choices and keeps nothing.

use vstd::prelude::*;

verus! {

/// What the player chooses on the pause screen.
#[derive(Clone, Copy, Debug, PartialEq, Eq, Structural)]
pub enum PauseMessage {
    /// Leave the game for the settings.
    Settings,
    /// Go back to the clocks as they stand.
    Back,
    /// Start the game anew with the time limits in force.
    Reset,
}

/// The pause screen.
#[derive(Clone, Copy, Debug, PartialEq, Eq, Structural)]
pub struct PausePane {}

impl PausePane {
    /// The pause screen.
    pub fn new() -> (pane: Self) {
        Self {  }
    }

    /// The period at which the screen asks to be ticked: it never asks.
    pub fn subscription(&self) -> (period: Option<u128>)
        ensures
            period is None,
    {
        None
    }

    /// Takes a message. The screen has no state that a message could
    /// change: what a choice leads to is decided by the screens' owner.
    pub fn update(&mut self, message: PauseMessage)
        ensures
            *final(self) == *old(self),
    {
    }
}

} // verus!
