//! Extraction and correlation of the log lines that belong to one
//! merchant/product pair: a two-pass semi-join keyed by trace identifier,
//! and a report of the status and return code found for each identifier.
pub mod pattern;
pub mod model;
pub mod passes;
pub mod report;
pub mod laws;
