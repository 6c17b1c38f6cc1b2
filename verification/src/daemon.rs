//! The service: its state, its operations and the synchronization that it runs.
pub mod bridge;
pub mod dispatch;
pub mod errors;
pub mod laws;
pub mod pairing;
pub mod profiles;
pub mod state;
pub mod store;
pub mod sync;
