//! The shape in which discovered chats are kept between runs.

pub mod models;

pub use models::{AnalyticsData, CacheData, CachedChat, CachedChatView};
