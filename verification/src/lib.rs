//! Classification of structured log lines.
//!
//! A line of JSON text is parsed, its source and message are read out, the
//! message is searched for the first severity word, and the outcome says what
//! the caller has to do with the line: forward a record, report a diagnostic,
//! or drop it.

pub mod level;
pub mod pattern;
pub mod json;
pub mod record;
pub mod connection;
pub mod acceptor;
