pub mod error;
pub mod usecases;
