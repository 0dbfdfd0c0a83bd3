//! Request and response shapes of the known endpoints.

pub mod portfolio;
pub mod reference_data;
