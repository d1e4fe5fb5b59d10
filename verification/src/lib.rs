//! Decision logic of a browser front end that trades an OAuth authorization
//! code for access to a remote service and then downloads a CSV report for a
//! date range.
//!
//! The crate holds no I/O. Each component is a function from plain values to
//! plain values with a proved contract; the surrounding application performs
//! the network calls and DOM operations that the functions ask for.

pub mod config;
pub mod decoder;
pub mod download;
pub mod resolver;
pub mod sequencer;
pub mod shell;
