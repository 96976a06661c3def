//! What the functions of the library promise, whatever they are called with.
//!
//! A law speaks of a call by its arguments and of what came back, not of how it came about.

pub mod brushes;
pub mod samples;
pub mod strokes;
pub mod selections;
pub mod replays;
pub mod stacks;
pub mod canvases;
pub mod views;
pub mod measures;
pub mod words;
