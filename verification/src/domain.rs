//! Shared domain types for LightSync frontends and services.
pub mod config;
pub mod ipc;
pub mod laws;
pub mod state;
