//! Trigger detection and dispatch for keyboard macros: key-state tracking,
//! a time-bounded window of recent key presses, combo matching, suppression
//! of the keys that fired a combo, profile switching and a bounded queue of
//! pending action lists.

pub mod config;
pub mod macro_engine;
pub mod heroes;
pub mod keymap;
pub mod command;
pub mod actions;
