//! Focus and idle time tracking.
//!
//! A tracking run samples, once a second, how long the input of the machine
//! has been silent, and keeps a log of Focus and Idle intervals from which
//! it derives statistics by session, day and week.
//!
//! - [`time`]: instants, spans and times of day.
//! - [`models`]: intervals and the log.
//! - [`tracker`]: the state machine that takes samples into the log, the
//!   schedule of a run, retention.
//! - [`laws`]: what holds of the log under every sequence of samples.
//! - [`stats`]: summaries and statistics by day.
//! - [`report`], [`dashboard`]: what reports and live displays are made
//!   from, and what the driving loop does next.
//! - [`parse`], [`clock`]: settings read from text, and readings of the
//!   clock and the local calendar, both taken from other crates and
//!   believed as documented there.
//! - [`storage`], [`config`], [`utils`]: where the log is kept, the settings
//!   kept between runs, and the writing of spans.
//!
//! Reading and writing files, the terminal and the idle-time probe are left
//! to the program around the library.

pub mod clock;
pub mod config;
pub mod dashboard;
pub mod laws;
pub mod models;
pub mod parse;
pub mod report;
pub mod stats;
pub mod storage;
pub mod time;
pub mod tracker;
pub mod utils;
