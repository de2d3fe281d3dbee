//! The records that the API returns, and the bodies of the requests it takes.

pub mod alerts;
pub mod conversations;
pub mod members;
pub mod metrics;
pub mod resources;
pub mod threads;
