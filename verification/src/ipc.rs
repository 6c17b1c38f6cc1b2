//! Transport for the LightSync protocol over a Unix socket.
pub mod client;
pub mod error;
pub mod laws;
pub mod record;
pub mod socket;
