//! Decoding of a build tool's structured log lines, and the bookkeeping that
//! turns the decoded events into commands for a live progress display.
//!
//! A log line is either free text or, behind the marker [`log_item::PREFIX`],
//! a JSON object that reports a message, the start of an activity, an update
//! to a running activity, or its end.  [`log_item::parse_line`] turns a line
//! into a [`log_item::LogItem`]; [`tracker::Tracker`] consumes the items in
//! order and answers each with the [`tracker::RenderCommand`]s that a renderer
//! has to carry out.

pub mod ansi;
pub mod json;
pub mod lifecycle;
pub mod log_item;
pub mod text;
pub mod tracker;
pub mod utils;
pub mod wire;
