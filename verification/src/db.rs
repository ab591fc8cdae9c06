//! The record store: its tables, what each statement does to them, and an
//! in-memory store that carries the statements out.

pub mod scan;
pub mod table;
pub mod tags;
pub mod tasks;
pub mod notifications;
pub mod notification_subs;
pub mod store;
