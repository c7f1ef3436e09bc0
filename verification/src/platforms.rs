//! The supported platforms: how each one's games are discovered and
//! launched.

pub mod traits;
pub mod battlenet;
pub mod custom;
pub mod epic;
pub mod steam;
