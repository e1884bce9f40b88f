//! Open Graph preview metadata for web pages, and the write-once cache that
//! keeps it on disk.

pub mod cache_model;
pub mod markup;
pub mod og;
pub mod og_manager;
pub mod populate;
pub mod preview;
pub mod text;
pub mod visits;
pub mod web_url;
