//! Screen capture: frames, image parsing and the course of a capture session.
pub mod frame;
pub mod grim;
pub mod laws;
pub mod pipewire;
pub mod portal;
pub mod ppm;
