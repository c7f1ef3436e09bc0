//! Game-library core: manifest parsing, platform scanning, executable
//! resolution, launch planning, session tracking and library reconciliation.
//!
//! Every function here works on plain values; reading disks, registries,
//! process lists and clocks is left to the caller.

pub mod error;
pub mod text;
pub mod models;
pub mod pattern;
pub mod acf;
pub mod vdf;
pub mod paths;
pub mod snapshot;
pub mod executable_finder;
pub mod platforms;
pub mod monitor;
pub mod database;
pub mod game_manager;
pub mod launch;
pub mod api;
pub mod services;
pub mod auth;
pub mod secrets;
pub mod logger;
pub mod watcher;
pub mod migrations;
pub mod settings;
