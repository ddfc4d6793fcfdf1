//! The views and actions of the interactive mode.
pub mod helpers;
pub mod navigation;
