pub mod client;
pub mod date;
pub mod error;
pub mod fetch;
pub mod query;
