//! The command line: its values, its requests and what it shows.
pub mod commands;
pub mod laws;
pub mod report;
pub mod values;
