//! A terminal clock: clock, timer, stopwatch and countdown modes.
//!
//! This crate holds the decisions behind the clock: how display options are
//! resolved from the command line and the config file, how command-line
//! values are parsed, how durations and headers are formatted, and how keys
//! are routed. Drawing to the terminal is left to the program around it.
pub mod app;
pub mod args;
pub mod clock;
pub mod config;
pub mod countdown;
pub mod display;
pub mod duration;
pub mod layout;
pub mod stopwatch;
pub mod text;
pub mod time;
pub mod timer;

