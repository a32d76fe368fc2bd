//! Decision logic of an in-game chat companion: configuration defaults, the
//! shared chat state and its request generations, conversation trimming and
//! stream framing, game identity, capture post-processing, the per-frame and
//! bootstrap decisions, and the loader's watch bookkeeping.

pub mod capture;
pub mod config;
pub mod game_detect;
pub mod loader;
pub mod render;
pub mod session_log;
pub mod request;
pub mod state;
pub mod text;
