//! The graphical interface: what it knows, asks and shows.
pub mod catalog;
pub mod equality;
pub mod i18n;
pub mod laws;
pub mod model;
pub mod render;
pub mod view_state;
