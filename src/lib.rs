//! Orchestration logic for extracting item data from a grid-based inventory
//! panel: screen geometry, input timing, the scan state machine and the
//! lock-flag replay.

pub mod config;
pub mod geometry;
pub mod lock_file;
pub mod lock_flip;
pub mod navigation;
pub mod poll;
pub mod record;
pub mod scan;
pub mod version;
