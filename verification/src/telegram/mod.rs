//! Telegram Bot API data and the processor that folds updates into a
//! registry of discovered chats.

pub mod laws;
pub mod registry;
pub mod types;
pub mod updates;

pub use types::{
    ChannelPost, ChannelPostView, Chat, ChatView, DiscoveredChat, DiscoveredChatView,
    GetMeResponse, GetUpdatesResponse, Message, MessageView, SendMessageResponse, TopicInfo,
    TopicView, Update, UpdateView, User, UserView,
};
pub use registry::ProcessorView;
pub use updates::UpdateProcessor;
