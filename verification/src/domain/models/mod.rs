pub mod property;
pub mod vehicle;
