//! The endpoints' decisions: what each asks of the store, in which order, and
//! what it answers.

pub mod sync;
pub mod tasks;
pub mod tags;
pub mod notif_subs;
pub mod ws;
