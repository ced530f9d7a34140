//! High-level game state: the authoritative current state and any pending
//! transition requested by systems.
use vstd::prelude::*;

verus! {

/// Discrete high-level states the game can be in.
#[derive(Clone, Copy, Debug, PartialEq, Eq, Hash, Structural)]
pub enum GameStates {
    Unset,
    Setup,
    Playing,
    Quitting,
}

impl Default for GameStates {
    fn default() -> (r: Self)
        ensures
            r == GameStates::Unset,
    {
        GameStates::Unset
    }
}

/// A requested next state: nothing, or a pending transition.
#[derive(Clone, Copy, Debug, PartialEq, Eq, Hash, Structural)]
pub enum NextGameStates {
    Unchanged,
    Pending(GameStates),
}

impl Default for NextGameStates {
    fn default() -> (r: Self)
        ensures
            r == NextGameStates::Unchanged,
    {
        NextGameStates::Unchanged
    }
}

/// Authoritative current game state.
#[derive(Clone, Copy, Debug, PartialEq, Eq, Hash, Structural)]
pub struct GameState {
    current: GameStates,
}

impl GameState {
    /// The current state.
    pub closed spec fn current(self) -> GameStates {
        self.current
    }

    /// A state initialized to [`GameStates::Unset`].
    pub fn new() -> (r: Self)
        ensures
            r.current() == GameStates::Unset,
    {
        GameState { current: GameStates::Unset }
    }

    /// Read-only access to the current state.
    pub fn get(&self) -> (r: &GameStates)
        ensures
            *r == self.current(),
    {
        &self.current
    }

    /// Update the current state immediately.
    pub fn set(&mut self, state: GameStates)
        ensures
            final(self).current() == state,
    {
        self.current = state;
    }
}

/// Intent to change to a new game state.
#[derive(Clone, Copy, Debug, PartialEq, Eq, Hash, Structural)]
pub struct NextGameState {
    next: NextGameStates,
}

impl NextGameState {
    /// The current transition request.
    pub closed spec fn request(self) -> NextGameStates {
        self.next
    }

    /// No transition requested.
    pub fn new() -> (r: Self)
        ensures
            r.request() == NextGameStates::Unchanged,
    {
        NextGameState { next: NextGameStates::Unchanged }
    }

    /// The current transition request.
    pub fn get(&self) -> (r: &NextGameStates)
        ensures
            *r == self.request(),
    {
        &self.next
    }

    /// Request a transition to `next` by marking it as pending.
    pub fn set(&mut self, next: GameStates)
        ensures
            final(self).request() == NextGameStates::Pending(next),
    {
        self.next = NextGameStates::Pending(next);
    }

    /// Clear the request.
    pub fn reset(&mut self)
        ensures
            final(self).request() == NextGameStates::Unchanged,
    {
        self.next = NextGameStates::Unchanged;
    }
}

} // verus!
