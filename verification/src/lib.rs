//! Decision core of an Android package manager that works through a
//! command-line device bridge.
//!
//! Every external command (the bridge tool, the local inspection tool, the
//! remote helper) is run by the surrounding application; this library holds
//! the verified logic: parsing the textual dumps those tools emit, deciding
//! whether a candidate package is already installed at the matching version,
//! planning the remote-helper bootstrap, and collecting batch inventory
//! results.

pub mod bootstrap;
pub mod connect;
pub mod error;
pub mod files;
pub mod install;
pub mod inventory;
pub mod parser;
pub mod reconcile;
pub mod text;
