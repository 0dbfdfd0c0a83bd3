//! Reference-data endpoints: exchanges.

pub mod exchanges;
