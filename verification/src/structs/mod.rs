//! The API's records with their accessors.

pub mod conversations;
pub mod members;
pub mod metrics;
pub mod threads;
