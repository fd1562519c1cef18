//! The service that reads the listing and then each article on it.

pub mod entity;
pub mod spawn;
