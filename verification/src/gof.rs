//! Patterns.

pub mod state_monad;
