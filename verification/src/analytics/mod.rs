//! Statistics over the discovered chats.

pub mod stats;

pub use stats::{Statistics, StatisticsView};
