//! Hue bridges: discovery, pairing, control requests and the entertainment stream.
pub mod area;
pub mod bridge;
pub mod control;
pub mod credentials;
pub mod fake;
pub mod laws;
pub mod light;
pub mod opening;
pub mod restore;
pub mod stream;
