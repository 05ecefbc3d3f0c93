//! Verified core of a bridge between a polling, callback-driven native
//! service and request/response operations with a deadline.

pub mod bridge;
pub mod callback;
pub mod client;
pub mod input;
pub mod notifier;
pub mod origins;
pub mod socket;
pub mod utils;
