//! State and decision logic of a painting shell: brush presets, stylus and touch
//! routing, input audit, layer and selection commands, and replay of a recorded
//! drawing session.

pub mod audit;
pub mod brush;
pub mod capture;
pub mod command;
pub mod config;
pub mod ending;
pub mod feed;
pub mod fonts;
pub mod frame;
pub mod geometry;
pub mod input;
pub mod latency;
pub mod laws;
pub mod layers;
pub mod lead;
pub mod making;
pub mod range;
pub mod rebuilding;
pub mod recording;
pub mod replay;
pub mod scalar;
pub mod selection;
pub mod shell;
pub mod stamp;
pub mod status;
pub mod text;
pub mod trace;
pub mod viewport;
