pub mod error;
pub mod models;
pub mod property;
pub mod vehicle;
