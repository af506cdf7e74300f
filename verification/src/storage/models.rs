//! The data that is kept between runs: the bot token, the discovered chats
//! in a flat form, and running analytics.

use crate::telegram::types::{
    clone_text, clone_topics, text_of, topic_views, ChatView, DiscoveredChat,
    DiscoveredChatView, TopicInfo, TopicView,
};
use std::collections::HashMap;
use vstd::prelude::*;
use vstd::std_specs::convert::FromSpecImpl;

verus! {

/// A discovered chat in the flat form in which it is kept.
#[derive(Debug, Clone)]
pub struct CachedChat {
    pub chat_id: i64,
    pub chat_type: String,
    pub title: Option<String>,
    pub username: Option<String>,
    pub first_name: Option<String>,
    pub last_name: Option<String>,
    pub last_seen: i64,
    pub message_count: usize,
    pub topics: Vec<TopicInfo>,
}

/// What a [`CachedChat`] says, as plain values.
pub struct CachedChatView {
    pub chat_id: i64,
    pub chat_type: Seq<char>,
    pub title: Option<Seq<char>>,
    pub username: Option<Seq<char>>,
    pub first_name: Option<Seq<char>>,
    pub last_name: Option<Seq<char>>,
    pub last_seen: int,
    pub message_count: nat,
    pub topics: Seq<TopicView>,
}

impl View for CachedChat {
    type V = CachedChatView;

    open spec fn view(&self) -> CachedChatView {
        CachedChatView {
            chat_id: self.chat_id,
            chat_type: self.chat_type@,
            title: text_of(self.title),
            username: text_of(self.username),
            first_name: text_of(self.first_name),
            last_name: text_of(self.last_name),
            last_seen: self.last_seen as int,
            message_count: self.message_count as nat,
            topics: topic_views(self.topics@),
        }
    }
}

/// The flat form of a discovered chat: the chat's own fields beside what
/// was seen of it.
pub open spec fn cached_form(chat: DiscoveredChatView) -> CachedChatView {
    CachedChatView {
        chat_id: chat.chat.id,
        chat_type: chat.chat.chat_type,
        title: chat.chat.title,
        username: chat.chat.username,
        first_name: chat.chat.first_name,
        last_name: chat.chat.last_name,
        last_seen: chat.last_seen,
        message_count: chat.message_count,
        topics: chat.topics,
    }
}

/// The discovered chat that a flat form stands for.
pub open spec fn discovered_form(cached: CachedChatView) -> DiscoveredChatView {
    DiscoveredChatView {
        chat: ChatView {
            id: cached.chat_id,
            chat_type: cached.chat_type,
            title: cached.title,
            username: cached.username,
            first_name: cached.first_name,
            last_name: cached.last_name,
        },
        last_seen: cached.last_seen,
        message_count: cached.message_count,
        topics: cached.topics,
    }
}

/// The flat form loses nothing: the discovered chat can be read back from
/// it.
pub proof fn law_cached_form_is_lossless(chat: DiscoveredChatView)
    ensures
        discovered_form(cached_form(chat)) == chat,
{
}

impl From<&DiscoveredChat> for CachedChat {
    /// The flat form of `chat`.
    fn from(chat: &DiscoveredChat) -> (cached: Self)
        ensures
            cached@ == cached_form(chat@),
    {
        CachedChat {
            chat_id: chat.chat.id,
            chat_type: chat.chat.chat_type.clone(),
            title: clone_text(&chat.chat.title),
            username: clone_text(&chat.chat.username),
            first_name: clone_text(&chat.chat.first_name),
            last_name: clone_text(&chat.chat.last_name),
            last_seen: chat.last_seen,
            message_count: chat.message_count,
            topics: clone_topics(&chat.topics),
        }
    }
}

impl FromSpecImpl<&DiscoveredChat> for CachedChat {
    open spec fn obeys_from_spec() -> bool {
        false
    }

    open spec fn from_spec(chat: &DiscoveredChat) -> Self {
        arbitrary()
    }
}

/// Running analytics as they are kept.
#[derive(Debug, Clone)]
pub struct AnalyticsData {
    /// The messages processed so far.
    pub total_messages: usize,
    /// The message count of each chat, by chat id.
    pub messages_per_chat: HashMap<i64, usize>,
    /// The message count of each hour of the day.
    pub hourly_distribution: HashMap<i64, usize>,
}

impl Default for AnalyticsData {
    /// Analytics that have counted nothing.
    fn default() -> (data: Self)
        ensures
            data.total_messages == 0,
            data.messages_per_chat@ == Map::<i64, usize>::empty(),
            data.hourly_distribution@ == Map::<i64, usize>::empty(),
    {
        AnalyticsData {
            total_messages: 0,
            messages_per_chat: HashMap::new(),
            hourly_distribution: HashMap::new(),
        }
    }
}

/// All that is kept between runs.
#[derive(Debug)]
pub struct CacheData {
    /// The bot token.
    pub token: Option<String>,
    /// The discovered chats.
    pub chats: Vec<CachedChat>,
    pub analytics: AnalyticsData,
}

impl Default for CacheData {
    /// What is kept before the first run: no token, no chat, and analytics
    /// that have counted nothing.
    fn default() -> (data: Self)
        ensures
            data.token is None,
            data.chats@.len() == 0,
            data.analytics.total_messages == 0,
            data.analytics.messages_per_chat@ == Map::<i64, usize>::empty(),
            data.analytics.hourly_distribution@ == Map::<i64, usize>::empty(),
    {
        CacheData { token: None, chats: Vec::new(), analytics: AnalyticsData::default() }
    }
}

impl CacheData {
    /// The same data with `token` as the bot token.
    pub fn with_token(self, token: String) -> (data: Self)
        ensures
            data.token == Some(token),
            data.chats == self.chats,
            data.analytics == self.analytics,
    {
        CacheData { token: Some(token), chats: self.chats, analytics: self.analytics }
    }
}

} // verus!
