//! A durable store of traffic reports and of the profiles of the users who
//! submit them, with verified contracts for every operation.

pub mod codec;
pub mod counter;
pub mod durable;
pub mod laws;
pub mod record;
pub mod records;
pub mod store;
pub mod text;
