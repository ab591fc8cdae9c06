//! What holds of the sync core as a whole, stated over the tables and proved.

pub mod sync;
pub mod tasks;
