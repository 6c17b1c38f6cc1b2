//! Screen-to-light synchronization for Hue entertainment areas.
pub mod capture;
pub mod cli;
pub mod daemon;
pub mod domain;
pub mod encoding;
pub mod engine;
pub mod gui;
pub mod hue;
pub mod ipc;
pub mod laws;
pub mod number;
pub mod text;
