//! Presentation logic for a "list running containers" tool.
//!
//! The crate turns the records that a container daemon reports into
//! display rows (shortened identifiers, formatted port mappings, a relative
//! creation time) and lays them out as a table with rounded borders.
//! Reading the environment and talking to the daemon are left to the caller.

pub mod config;
pub mod container;
pub mod decimal;
pub mod ports;
pub mod table;
pub mod text;
pub mod timestamp;
