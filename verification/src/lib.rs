//! Synchronisation core for a multi-device time tracker: record merging,
//! download selection, task lifecycle rules and live-update decisions.

pub mod text;
pub mod time;
pub mod error;
pub mod db;
pub mod exchange;
pub mod endpoints;
pub mod laws;
