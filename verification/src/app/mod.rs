//! The application's state: which screen is shown and what is selected,
//! the live monitor, and the manager of what the bot has received.

pub mod facade;
pub mod monitoring;
pub mod state;
pub mod telegram_manager;

pub use facade::App;
pub use monitoring::{
    MonitorMessage, MonitorState, MonitoringCommand, MonitoringService, PollStep, PollTask,
    ToggleAction,
};
pub use state::{InputFocus, Screen, TestMessageMode, UiState};
pub use telegram_manager::{
    SendMessageResult, TelegramManager, TestMessage, TokenValidationResult,
};
