//! Core engine of a keyboard-driven terminal client: an action-driven
//! state reducer, a mode automaton for key dispatch, and the decoder for
//! the streaming search protocol. All state transitions are specified by
//! a single transition function over a mathematical model of the state,
//! so replaying a sequence of actions is deterministic by construction.

pub mod actions;
pub mod keymap;
pub mod laws;
pub mod reducer;
pub mod state;
pub mod stream;
pub mod text;
pub mod transition;
