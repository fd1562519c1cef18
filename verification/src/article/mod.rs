//! Fetching one article: its page, its listing and its attachments.

pub mod article;
pub mod attach;
pub mod list;
