//! Locating and bootstrapping the rez package manager for a host command
//! line: platform rules, release asset selection, download retry policy,
//! archive dispatch, interpreter lookup, installation ordering and the
//! cached resolution of the rez executable.
//!
//! Every decision is a function from plain values to plain values with a
//! proved contract. Reading the disk, the network and the process
//! environment is left to the caller; the library itself asks the host only
//! for the user's home directory and for the parts of a path.

pub mod text;
pub mod error;
pub mod platform;
pub mod python_standalone;
pub mod download;
pub mod extract;
pub mod locator;
pub mod rez_path;
pub mod installer;
pub mod detection;
pub mod paths;
pub mod config;
pub mod plugin;
pub mod rez;
pub mod loader;
pub mod cli;

pub use config::Config;
pub use error::RezToolsError;
pub use plugin::Plugin;
