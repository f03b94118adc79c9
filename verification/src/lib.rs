//! Terminal Pomodoro core library: configuration handling, phase rules,
//! the timer and session state machine, and the values that are persisted.
use vstd::prelude::*;

pub mod cli;
pub mod config;
pub mod domain;
pub mod engine;
pub mod persistence;
pub mod text;
