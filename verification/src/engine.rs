//! Frame sampling and color processing for entertainment channels.
pub mod frame;
pub mod laws;
pub mod light;
pub mod preset;
pub mod processor;
