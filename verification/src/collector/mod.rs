//! The collector: it polls the listing, reads the articles that are new,
//! stores their attachments and later looks again for articles that are gone.

pub mod article;
pub mod board;
pub mod delete;
pub mod delete_entity;
pub mod entity;
pub mod scheduler;
