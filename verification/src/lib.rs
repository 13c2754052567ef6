//! Verified core of a self-updating installer/launcher for a desktop
//! application distributed as versioned zip archives over HTTP.
//!
//! The library holds the decision logic: platform detection, download-URL
//! construction, the install/uninstall transactions over an explicit model of
//! the mutable OS state (install directory, shortcuts, uninstall registry
//! record), and the session state machine that drives the phases. Real I/O
//! (network, filesystem, shell integration) is performed by a thin outer
//! layer that executes the effect lists this library computes.

pub mod archive;
pub mod errors;
pub mod model;
pub mod paths;
pub mod platform;
pub mod resolver;
pub mod session;
pub mod strutil;
pub mod transaction;
