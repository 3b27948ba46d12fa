//! The application state (`Model`) and the messages that drive it.

use vstd::prelude::*;

verus! {

/// Number of bytes of the opaque payload carried through every transition.
pub const API_KEY_LEN: usize = 32;

/// Whether the event loop should keep running. Starts at `Running`;
/// once `Done` it is never reset (see `laws::lemma_running_state_monotonic`).
#[derive(Debug, Copy, Clone, PartialEq, Eq, Structural)]
pub enum RunningState {
    Running,
    Done,
}

/// A finite set of intents, produced from mapped key input or
/// synthesized as a follow-up by the update function itself.
#[derive(Debug, Copy, Clone, PartialEq, Eq, Structural)]
pub enum Message {
    Increment,
    Decrement,
    Reset,
    Quit,
}

/// The single state container: a counter, the run state, and an opaque
/// 32-byte payload that is supplied at construction and never altered.
#[derive(Debug, Copy, Clone, PartialEq, Eq)]
pub struct Model {
    pub counter: i32,
    pub running_state: RunningState,
    pub api_key: [u8; API_KEY_LEN],
}

impl Model {
    /// A fresh model: counter zero, running, carrying the given payload.
    pub fn new(api_key: [u8; API_KEY_LEN]) -> (m: Model)
        ensures
            m.counter == 0,
            m.running_state == RunningState::Running,
            m.api_key == api_key,
    {
        Model { counter: 0, running_state: RunningState::Running, api_key }
    }

    /// True exactly when the run state has reached `Done`.
    pub fn is_done(&self) -> (r: bool)
        ensures
            r == (self.running_state == RunningState::Done),
    {
        match self.running_state {
            RunningState::Done => true,
            RunningState::Running => false,
        }
    }
}

} // verus!
