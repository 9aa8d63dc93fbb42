//! Content persistence and retrieval core of a personal blog site: runtime
//! settings, the post store with its lookup and filter rules, the schema
//! migration plan, the pool settings, and the content catalogue.

pub mod config;
pub mod content;
pub mod error;
pub mod migrations;
pub mod models;
pub mod pool;
pub mod repository;
pub mod slug;
pub mod text;
