//! Chat discovery, live-monitoring control and activity statistics for a
//! Telegram bot, with every function's behaviour stated and proved.

pub mod analytics;
pub mod app;
pub mod input;
pub mod storage;
pub mod telegram;
pub mod text;
pub mod time;
