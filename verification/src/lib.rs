//! Deduplicating proxy core: seen-set store, canonical identity, and the
//! batch and stream filters built on them.

pub mod cleanup;
pub mod clock;
pub mod config;
pub mod db;
pub mod filter;
pub mod json;
pub mod proxy;
pub mod recording;
pub mod text;
pub mod websocket;

pub use db::extract_dedup_uri;
pub use db::SeenUriStore;
