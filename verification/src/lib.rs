//! Background notification scheduling for a weather chat bot.
//!
//! The crate holds the decisions of the scheduler and none of its I/O: whether
//! the time of day falls inside a trigger window, which periodic jobs a
//! "connected" signal may start, in which order one tick fetches payloads,
//! sends them and pauses between sends, and how the scratch directory is swept.
//! The caller performs each action and reports what came of it. Beside the
//! scheduler stand the checks on what a user types and the arithmetic of the
//! forecast graph.

pub mod clock;
pub mod config;
pub mod course;
pub mod error;
pub mod fanout;
pub mod forecast;
pub mod guard;
pub mod health;
pub mod janitor;
pub mod utils;
