//! Synthesizes discrete input events (button edges, axis motion, stick
//! motion) from periodically polled snapshots of game-controller state.

pub mod axis;
pub mod event;
pub mod gamepad;
pub mod manager;
pub mod mapping;
pub mod synth;
