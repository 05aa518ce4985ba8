//! The phases of an encounter, and the coordinator that moves between them.

use vstd::prelude::*;
use crate::selection::MenuOption;

verus! {

/// The phase an encounter is in.
#[derive(Clone, Copy, Debug, PartialEq, Eq, Hash, Structural)]
pub enum MenuState {
    Selection,
    Decision,
    Text,
    Fight,
    Dodging,
    EnemyDeath,
    Error,
}

impl MenuState {
    /// The phase that a button of the top-level menu leads to.
    pub open spec fn from_option_spec(o: MenuOption) -> MenuState {
        match o {
            MenuOption::Fight => MenuState::Fight,
            MenuOption::Act => MenuState::Decision,
            MenuOption::Item => MenuState::Decision,
            MenuOption::Mercy => MenuState::Decision,
        }
    }

    /// The phase that a button of the top-level menu leads to: the fight
    /// button opens the fight, the others a decision menu.
    pub fn from_option(o: MenuOption) -> (state: MenuState)
        ensures
            state == MenuState::from_option_spec(o),
            state != MenuState::Error,
    {
        match o {
            MenuOption::Act => MenuState::Decision,
            MenuOption::Fight => MenuState::Fight,
            MenuOption::Item => MenuState::Decision,
            MenuOption::Mercy => MenuState::Decision,
        }
    }
}

/// A change of phase that has been applied.
#[derive(Clone, Copy, Debug, PartialEq, Eq, Structural)]
pub struct PhaseChange {
    /// The phase that was left.
    pub exited: MenuState,
    /// The phase that was entered.
    pub entered: MenuState,
}

/// The coordinator of the phases: the phase that is active, and the one that
/// has been asked for and waits for the next tick boundary.
#[derive(Clone, Copy, Debug, PartialEq, Eq, Structural)]
pub struct MenuTransition {
    pub current: MenuState,
    pub pending: Option<MenuState>,
}

impl MenuTransition {
    /// The coordinator at the start of an encounter: in the selection phase,
    /// with nothing asked for.
    pub fn new() -> (transition: MenuTransition)
        ensures
            transition == (MenuTransition { current: MenuState::Selection, pending: None }),
    {
        MenuTransition { current: MenuState::Selection, pending: None }
    }

    /// The phase that is active.
    pub fn current_phase(&self) -> (state: MenuState)
        ensures
            state == self.current,
    {
        self.current
    }

    /// Asks for a phase. The active phase stays until the next tick boundary;
    /// a phase that was asked for before and has not been applied is dropped.
    pub fn request_transition(&mut self, state: MenuState)
        ensures
            *final(self) == (MenuTransition { current: old(self).current, pending: Some(state) }),
    {
        self.pending = Some(state);
    }

    /// At the tick boundary: makes the phase that was asked for the active
    /// one, and says which phase was left and which was entered. Nothing
    /// changes where no phase was asked for.
    pub fn apply_pending(&mut self) -> (change: Option<PhaseChange>)
        ensures
            final(self).pending is None,
            old(self).pending is None ==> change is None && final(self).current == old(self).current,
            old(self).pending matches Some(state) ==> {
                &&& final(self).current == state
                &&& change == Some(PhaseChange { exited: old(self).current, entered: state })
            },
    {
        match self.pending {
            None => None,
            Some(state) => {
                let exited: MenuState = self.current;
                self.current = state;
                self.pending = None;
                Some(PhaseChange { exited, entered: state })
            },
        }
    }
}

} // verus!
