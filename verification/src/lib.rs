//! Verified core of the marketplace automation service: the listing domain,
//! the publishing flows, the status tracker and the decisions that drive the
//! browser automation.

pub mod application;
pub mod domain;
pub mod infra;
pub mod text;
