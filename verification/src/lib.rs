//! Scheduling records for teams, users, players and recurring availability
//! blocks, with the codecs for their wire fields, the contract of the store
//! that keeps them, and the decisions of the handlers that serve them.

pub mod api;
pub mod error;
pub mod memory;
pub mod model;
pub mod recurrence;
pub mod statement;
pub mod store;
pub mod time_of_day;
