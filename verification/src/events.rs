//! The decisions of the loop: what an input does to the viewport and whether
//! the loop goes on.

use vstd::prelude::*;

verus! {

/// The key that ends the loop.
pub const QUIT_KEY: char = 'q';

/// The size of the terminal's viewport.
#[derive(Clone, Copy, Debug, PartialEq, Eq)]
pub struct Viewport {
    /// Characters in a line.
    pub columns: u16,
    /// Lines.
    pub rows: u16,
}

/// What came in while the loop waited for the next tick.
#[derive(Clone, Copy, Debug, PartialEq, Eq)]
pub enum Input {
    /// A key that stands for the given character was pressed.
    Key(char),
    /// The terminal was resized to so many columns and rows.
    Resize(u16, u16),
    /// Anything else.
    Other,
}

/// Where the loop stands.
#[derive(Clone, Copy, Debug, PartialEq, Eq)]
pub enum State {
    /// Drawing ticks into a viewport of the given size.
    Running(Viewport),
    /// Ended by the quit key.
    Terminated,
}

/// The state that follows `state` on `input`. The quit key ends a running
/// loop, a resize gives it the new viewport, nothing else changes it, and a
/// loop that has ended stays ended.
pub open spec fn next_state(state: State, input: Input) -> State {
    match state {
        State::Terminated => State::Terminated,
        State::Running(view) => match input {
            Input::Key(key) => if key == QUIT_KEY {
                State::Terminated
            } else {
                State::Running(view)
            },
            Input::Resize(columns, rows) => State::Running(Viewport { columns, rows }),
            Input::Other => State::Running(view),
        },
    }
}

/// The state of the loop after `input` came in.
pub fn step(state: State, input: Input) -> (next: State)
    ensures
        next == next_state(state, input),
{
    match state {
        State::Terminated => State::Terminated,
        State::Running(view) => match input {
            Input::Key(key) => if key == QUIT_KEY {
                State::Terminated
            } else {
                State::Running(view)
            },
            Input::Resize(columns, rows) => State::Running(Viewport { columns, rows }),
            Input::Other => State::Running(view),
        },
    }
}

} // verus!
