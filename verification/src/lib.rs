pub mod article;
pub mod batch;
pub mod collector;
pub mod create_article;
pub mod entity;
pub mod logger;
pub mod markup;
pub mod shutdown;
pub mod stamp;
pub mod text;
