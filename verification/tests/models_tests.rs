use telegram_bot_debugger::storage::{AnalyticsData, CacheData, CachedChat};
use telegram_bot_debugger::telegram::{Chat, DiscoveredChat, TopicInfo};

fn create_test_chat(id: i64, chat_type: &str) -> Chat {
    Chat {
        id,
        chat_type: chat_type.to_string(),
        title: if chat_type != "private" {
            Some(format!("Test {chat_type}"))
        } else {
            None
        },
        username: None,
        first_name: if chat_type == "private" {
            Some("John".to_string())
        } else {
            None
        },
        last_name: if chat_type == "private" {
            Some("Doe".to_string())
        } else {
            None
        },
    }
}

fn create_test_discovered_chat(chat_id: i64, chat_type: &str, message_count: usize) -> DiscoveredChat {
    DiscoveredChat {
        chat: create_test_chat(chat_id, chat_type),
        last_seen: 1000,
        message_count,
        topics: Vec::new(),
    }
}

fn create_test_topic(thread_id: i64, name: Option<String>, message_count: usize) -> TopicInfo {
    TopicInfo {
        thread_id,
        name,
        message_count,
        last_seen: 1000,
    }
}


#[test]
fn test_cached_chat_from_discovered_chat() {
    let discovered = create_test_discovered_chat(100, "private", 10);
    let cached = CachedChat::from(&discovered);

    assert_eq!(cached.chat_id, 100);
    assert_eq!(cached.chat_type, "private");
    assert_eq!(cached.message_count, 10);
    assert_eq!(cached.last_seen, 1000);
}

#[test]
fn test_cached_chat_preserves_all_fields() {
    let mut discovered = create_test_discovered_chat(200, "group", 20);
    discovered.chat.title = Some("Test Group".to_string());
    discovered.chat.username = Some("testgroup".to_string());
    discovered.topics = vec![create_test_topic(1, Some("Topic 1".to_string()), 5)];
    
    let cached = CachedChat::from(&discovered);

    assert_eq!(cached.chat_id, 200);
    assert_eq!(cached.title, Some("Test Group".to_string()));
    assert_eq!(cached.username, Some("testgroup".to_string()));
    assert_eq!(cached.topics.len(), 1);
    assert_eq!(cached.topics[0].thread_id, 1);
}

#[test]
fn test_cache_data_default() {
    let data = CacheData::default();

    assert!(data.token.is_none());
    assert_eq!(data.chats.len(), 0);
    assert_eq!(data.analytics.total_messages, 0);
}

#[test]
fn test_analytics_data_default() {
    let analytics = AnalyticsData::default();

    assert_eq!(analytics.total_messages, 0);
    assert_eq!(analytics.messages_per_chat.len(), 0);
    assert_eq!(analytics.hourly_distribution.len(), 0);
}

#[test]
fn test_with_token_keeps_the_chats() {
    let discovered = create_test_discovered_chat(100, "private", 10);
    let data = CacheData {
        token: Some("old".to_string()),
        chats: vec![CachedChat::from(&discovered)],
        analytics: AnalyticsData::default(),
    };
    let data = data.with_token("new".to_string());
    assert_eq!(data.token, Some("new".to_string()));
    assert_eq!(data.chats.len(), 1);
    assert_eq!(data.chats[0].chat_id, 100);
}

#[test]
fn test_cached_chat_copies_names_and_topics() {
    let mut discovered = create_test_discovered_chat(7, "private", 3);
    discovered.last_seen = 4242;
    discovered.topics = vec![
        create_test_topic(1, None, 2),
        create_test_topic(2, Some("Two".to_string()), 1),
    ];
    let cached = CachedChat::from(&discovered);
    assert_eq!(cached.first_name, Some("John".to_string()));
    assert_eq!(cached.last_name, Some("Doe".to_string()));
    assert_eq!(cached.title, None);
    assert_eq!(cached.last_seen, 4242);
    assert_eq!(cached.topics.len(), 2);
    assert_eq!(cached.topics[1].name, Some("Two".to_string()));
    assert_eq!(cached.topics[0].message_count, 2);
}
