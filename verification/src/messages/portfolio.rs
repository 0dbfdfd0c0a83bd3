//! Portfolio endpoints: user and client information.

pub mod clients;
pub mod users;
