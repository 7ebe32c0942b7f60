//! The stack of game modes: map, dialogue and battle.
use vstd::prelude::*;

use crate::components::NpcId;

verus! {

/// What the game is doing.
#[derive(Debug, Clone, Copy, PartialEq, Eq, Structural, Hash)]
pub enum GameState {
    WorldMap,
    Dialogue,
    Battle,
}

/// The NPC the player is fighting.
#[derive(Debug, Clone, PartialEq, Eq, Hash)]
pub struct Battle(pub NpcId);

/// Why a mode could not be left.
#[derive(Debug, Clone, Copy, PartialEq, Eq, Structural)]
pub enum StateError {
    /// Leaving would leave no mode at all.
    LastState,
    /// The current mode is another than the one being left.
    Mismatch(GameState),
}

/// A stack of modes; the top one is current. It never becomes empty.
#[derive(Debug, Clone, PartialEq, Eq, Hash)]
pub struct StateManager {
    stack: Vec<GameState>,
}

impl View for StateManager {
    type V = Seq<GameState>;

    closed spec fn view(&self) -> Seq<GameState> {
        self.stack@
    }
}

impl StateManager {
    pub fn new(state: GameState) -> (r: Self)
        ensures
            r@ == seq![state],
    {
        let mut stack: Vec<GameState> = Vec::new();
        stack.push(state);
        assert(stack@ =~= seq![state]);
        StateManager { stack }
    }

    /// The current mode.
    pub fn get(&self) -> (r: Option<GameState>)
        ensures
            r == if self@.len() == 0 {
                None
            } else {
                Some(self@.last())
            },
    {
        if self.stack.len() == 0 {
            None
        } else {
            Some(self.stack[self.stack.len() - 1])
        }
    }

    /// Enters `state` on top of the current mode.
    pub fn push(&mut self, state: GameState)
        ensures
            final(self)@ == old(self)@.push(state),
    {
        self.stack.push(state)
    }

    /// Leaves the current mode and returns it; none, with nothing changed,
    /// when it is the only one left.
    pub fn pop(&mut self) -> (r: Option<GameState>)
        ensures
            old(self)@.len() <= 1 ==> r is None && final(self)@ == old(self)@,
            old(self)@.len() > 1 ==> r == Some(old(self)@.last()) && final(self)@ == old(self)@.drop_last(),
    {
        if self.stack.len() <= 1 {
            return None;
        }
        self.stack.pop()
    }

    /// Leaves the current mode, which must be `expected`, and returns the
    /// mode now current. Fails, changing nothing, when the current mode is
    /// another or is the only one left.
    pub fn pop_expecting(&mut self, expected: GameState) -> (r: Result<GameState, StateError>)
        ensures
            old(self)@.len() <= 1 ==> r == Err::<GameState, StateError>(StateError::LastState) && final(self)@
                == old(self)@,
            old(self)@.len() > 1 && old(self)@.last() != expected ==> r == Err::<GameState, StateError>(
                StateError::Mismatch(old(self)@.last()),
            ) && final(self)@ == old(self)@,
            old(self)@.len() > 1 && old(self)@.last() == expected ==> final(self)@ == old(self)@.drop_last()
                && r == Ok::<GameState, StateError>(final(self)@.last()),
    {
        let n = self.stack.len();
        if n <= 1 {
            return Err(StateError::LastState);
        }
        let top = self.stack[n - 1];
        if top != expected {
            return Err(StateError::Mismatch(top));
        }
        self.stack.pop();
        Ok(self.stack[n - 2])
    }
}

} // verus!
