use telegram_bot_debugger::analytics::Statistics;
use telegram_bot_debugger::telegram::{
    ChannelPost, Chat, DiscoveredChat, Message, TopicInfo, Update, UpdateProcessor,
};

fn chat(id: i64, kind: &str, name: &str) -> Chat {
    Chat {
        id,
        chat_type: kind.to_string(),
        title: Some(name.to_string()),
        username: None,
        first_name: None,
        last_name: None,
    }
}

fn message(chat_id: i64, date: i64, thread: Option<i64>) -> Message {
    Message {
        message_id: 1,
        from: None,
        chat: chat(chat_id, "supergroup", "Forum"),
        date,
        text: None,
        message_thread_id: thread,
        reply_to_message: None,
        other: Vec::new(),
    }
}

fn message_update(update_id: i64, chat_id: i64, date: i64) -> Update {
    Update {
        update_id,
        message: Some(message(chat_id, date, None)),
        channel_post: None,
        edited_message: None,
        other: Vec::new(),
    }
}

fn edit_update(update_id: i64, chat_id: i64, date: i64) -> Update {
    Update {
        update_id,
        message: None,
        channel_post: None,
        edited_message: Some(message(chat_id, date, None)),
        other: Vec::new(),
    }
}

fn other_update(update_id: i64) -> Update {
    Update {
        update_id,
        message: None,
        channel_post: None,
        edited_message: None,
        other: vec![("poll".to_string(), serde_json::Value::Null)],
    }
}

fn discovered(id: i64, kind: &str, name: &str, count: usize, last_seen: i64) -> DiscoveredChat {
    DiscoveredChat { chat: chat(id, kind, name), last_seen, message_count: count, topics: Vec::new() }
}

#[test]
fn test_watermark_is_the_highest_id_over_all_batches() {
    let mut processor = UpdateProcessor::new();
    assert_eq!(processor.last_update_id(), 0);
    processor.process_updates(vec![message_update(5, 1, 1), message_update(3, 1, 2)]);
    assert_eq!(processor.last_update_id(), 5);
    processor.process_updates(vec![other_update(9), message_update(9, 1, 3), edit_update(7, 1, 4)]);
    assert_eq!(processor.last_update_id(), 9);
    processor.process_updates(vec![]);
    processor.process_updates(vec![message_update(2, 1, 5)]);
    assert_eq!(processor.last_update_id(), 9);
    assert!(processor.has_room_for(1_000_000));
}

#[test]
fn test_watermark_starts_at_zero() {
    let mut processor = UpdateProcessor::default();
    processor.process_updates(vec![message_update(-5, 1, 1)]);
    assert_eq!(processor.last_update_id(), 0);
    assert_eq!(processor.get_discovered_chats().len(), 1);
}

#[test]
fn test_message_count_is_the_number_submitted() {
    let mut processor = UpdateProcessor::new();
    let ids = [4, 4, 1, 9, 2, 2, 2];
    for batch in ids.chunks(3) {
        processor.process_updates(batch.iter().map(|id| message_update(*id, 100, 1000)).collect());
    }
    let chats = processor.get_discovered_chats();
    assert_eq!(chats.len(), 1);
    assert_eq!(chats[0].message_count, ids.len());
}

#[test]
fn test_message_and_post_in_one_update_both_count() {
    let mut processor = UpdateProcessor::new();
    let mut update = message_update(1, 100, 1000);
    update.channel_post = Some(ChannelPost {
        message_id: 2,
        chat: chat(100, "channel", "Other name"),
        date: 3000,
        text: None,
        other: Vec::new(),
    });
    update.edited_message = Some(message(100, 2000, None));
    processor.process_updates(vec![update]);
    let chats = processor.get_discovered_chats();
    assert_eq!(chats.len(), 1);
    assert_eq!(chats[0].message_count, 2);
    assert_eq!(chats[0].last_seen, 3000);
    // The chat stays as the message showed it first.
    assert_eq!(chats[0].chat.chat_type, "supergroup");
}

#[test]
fn test_edit_for_unknown_chat_creates_no_entry() {
    let mut processor = UpdateProcessor::new();
    processor.process_updates(vec![message_update(1, 100, 1000)]);
    let before = processor.get_discovered_chats().len();
    processor.process_updates(vec![edit_update(2, 200, 5000), other_update(3)]);
    let chats = processor.get_discovered_chats();
    assert_eq!(chats.len(), before);
    assert_eq!(chats[0].chat.id, 100);
    assert_eq!(chats[0].last_seen, 1000);
    assert_eq!(processor.last_update_id(), 3);
}

#[test]
fn test_edit_does_not_lower_last_seen() {
    let mut processor = UpdateProcessor::new();
    processor.process_updates(vec![message_update(1, 100, 1000), edit_update(2, 100, 500)]);
    assert_eq!(processor.get_discovered_chats()[0].last_seen, 1000);
}

#[test]
fn test_snapshot_order() {
    let mut processor = UpdateProcessor::new();
    processor.process_updates(vec![
        message_update(1, 30, 1000),
        message_update(2, 10, 2000),
        message_update(3, -20, 1000),
        message_update(4, 40, 1500),
        message_update(5, 25, 1000),
    ]);
    let ids: Vec<i64> = processor.get_discovered_chats().iter().map(|c| c.chat.id).collect();
    // Latest first; at the same date the lower id first.
    assert_eq!(ids, vec![10, 40, -20, 25, 30]);
}

#[test]
fn test_topics_are_found_again() {
    let mut processor = UpdateProcessor::new();
    let with_thread = |id: i64, date: i64, thread: i64| Update {
        update_id: id,
        message: Some(message(100, date, Some(thread))),
        channel_post: None,
        edited_message: None,
        other: Vec::new(),
    };
    processor.process_updates(vec![
        with_thread(1, 1000, 7),
        with_thread(2, 3000, 8),
        with_thread(3, 2000, 7),
        message_update(4, 100, 500),
        with_thread(5, 100, 8),
    ]);
    let chats = processor.get_discovered_chats();
    let topics: &Vec<TopicInfo> = &chats[0].topics;
    assert_eq!(chats[0].message_count, 5);
    assert_eq!(topics.len(), 2);
    assert_eq!((topics[0].thread_id, topics[0].message_count, topics[0].last_seen), (7, 2, 2000));
    assert_eq!((topics[1].thread_id, topics[1].message_count, topics[1].last_seen), (8, 2, 3000));
    assert!(topics[0].name.is_none());
}

#[test]
fn test_has_room_for() {
    let processor = UpdateProcessor::new();
    assert!(processor.has_room_for(usize::MAX / 2));
    assert!(!processor.has_room_for(usize::MAX / 2 + 1));
    let mut processor = UpdateProcessor::new();
    processor.process_updates(vec![message_update(1, 100, 1000)]);
    // One message counted: twice the number and one more still fit.
    assert!(processor.has_room_for(usize::MAX / 2));
    processor.process_updates(vec![message_update(2, 100, 1000)]);
    assert!(processor.has_room_for(usize::MAX / 2 - 1));
    assert!(!processor.has_room_for(usize::MAX / 2));
}

#[test]
fn test_two_chats_scenario() {
    // Two messages to chat 100 and one to chat 200, last seen in different hours.
    let mut processor = UpdateProcessor::new();
    let named = |id: i64, chat_id: i64, date: i64| {
        let mut update = message_update(id, chat_id, date);
        update.message.as_mut().unwrap().chat.title = Some(format!("Chat{chat_id}"));
        update
    };
    processor.process_updates(vec![
        named(1, 100, 3_600),
        named(2, 200, 10_800),
        named(3, 100, 7_200),
    ]);
    let chats = processor.get_discovered_chats();
    let stats = Statistics::from_chats(&chats);
    assert_eq!(stats.total_chats, 2);
    assert_eq!(stats.total_messages, 3);
    assert_eq!(stats.get_top_chats(1), &[("Chat100".to_string(), 2)]);
    // Whatever the time zone: hours of the day, ascending, all messages in.
    let hours: Vec<u32> = stats.hourly_distribution.iter().map(|(h, _)| *h).collect();
    assert!(hours.iter().all(|h| *h < 24));
    assert!(hours.windows(2).all(|w| w[0] < w[1]));
    let counted: usize = stats.hourly_distribution.iter().map(|(_, n)| n).sum();
    assert_eq!(counted, 3);
    // Chat 100 was last seen at 7 200, chat 200 at 10 800: say at 2 and at 3.
    assert_eq!(chats[0].chat.id, 200);
    let stats = Statistics::from_chats_with_hours(&chats, &[3, 2]);
    assert_eq!(stats.total_chats, 2);
    assert_eq!(stats.total_messages, 3);
    assert_eq!(stats.get_top_chats(1), &[("Chat100".to_string(), 2)]);
    assert_eq!(stats.hourly_distribution, vec![(2, 2), (3, 1)]);
}

#[test]
fn test_totals_agree() {
    let chats = vec![
        discovered(1, "group", "a", 5, 0),
        discovered(2, "group", "b", 0, 0),
        discovered(3, "private", "c", 17, 0),
        discovered(4, "channel", "d", 5, 0),
    ];
    let refs: Vec<&DiscoveredChat> = chats.iter().collect();
    let stats = Statistics::from_chats(&refs);
    let listed: usize = stats.messages_per_chat.iter().map(|(_, n)| n).sum();
    let registered: usize = chats.iter().map(|c| c.message_count).sum();
    assert_eq!(stats.total_messages, listed);
    assert_eq!(stats.total_messages, registered);
    let hourly: usize = stats.hourly_distribution.iter().map(|(_, n)| n).sum();
    assert_eq!(hourly, registered);
}

#[test]
fn test_ranking_is_stable() {
    let chats = vec![
        discovered(1, "group", "a", 5, 0),
        discovered(2, "group", "b", 9, 0),
        discovered(3, "group", "c", 5, 0),
        discovered(4, "group", "d", 9, 0),
        discovered(5, "group", "e", 1, 0),
        discovered(6, "group", "f", 5, 0),
    ];
    let refs: Vec<&DiscoveredChat> = chats.iter().collect();
    let stats = Statistics::from_chats(&refs);
    let names: Vec<&str> = stats.messages_per_chat.iter().map(|(n, _)| n.as_str()).collect();
    assert_eq!(names, vec!["b", "d", "a", "c", "f", "e"]);
    let counts: Vec<usize> = stats.messages_per_chat.iter().map(|(_, n)| *n).collect();
    assert_eq!(counts, vec![9, 9, 5, 5, 5, 1]);
}

#[test]
fn test_top_chats_limits() {
    let chats = vec![discovered(1, "group", "a", 5, 0), discovered(2, "group", "b", 9, 0)];
    let refs: Vec<&DiscoveredChat> = chats.iter().collect();
    let stats = Statistics::from_chats(&refs);
    assert!(stats.get_top_chats(0).is_empty());
    assert_eq!(stats.get_top_chats(1), &[("b".to_string(), 9)]);
    assert_eq!(stats.get_top_chats(2), stats.messages_per_chat.as_slice());
    assert_eq!(stats.get_top_chats(3), stats.messages_per_chat.as_slice());
    assert_eq!(stats.get_top_chats(usize::MAX), stats.messages_per_chat.as_slice());
}

#[test]
fn test_hourly_distribution_values() {
    let chats = vec![
        discovered(1, "group", "a", 5, 0),
        discovered(2, "group", "b", 7, 0),
        discovered(3, "group", "c", 11, 0),
        discovered(4, "group", "d", 0, 0),
        discovered(5, "group", "e", 2, 0),
        discovered(6, "group", "f", 3, 0),
    ];
    let refs: Vec<&DiscoveredChat> = chats.iter().collect();
    let stats = Statistics::from_chats_with_hours(&refs, &[1, 0, 1, 23, 0, 23]);
    assert_eq!(stats.hourly_distribution, vec![(0, 9), (1, 16), (23, 3)]);
    // An hour whose chats have no message still has its bucket.
    let stats = Statistics::from_chats_with_hours(&refs, &[5, 5, 5, 22, 5, 5]);
    assert_eq!(stats.hourly_distribution, vec![(5, 28), (22, 0)]);
    assert_eq!(stats.total_messages, 28);
    let none: Vec<&DiscoveredChat> = Vec::new();
    assert!(Statistics::from_chats_with_hours(&none, &[]).hourly_distribution.is_empty());
}

#[test]
fn test_hourly_distribution_in_local_time() {
    let chats = vec![
        discovered(1, "group", "a", 5, 1_609_462_800),
        discovered(2, "group", "b", 7, 1_609_459_200),
        discovered(3, "group", "c", 11, 1_609_462_801),
        discovered(4, "group", "d", 2, i64::MAX),
    ];
    let refs: Vec<&DiscoveredChat> = chats.iter().collect();
    let stats = Statistics::from_chats(&refs);
    let hours: Vec<u32> = chats
        .iter()
        .map(|c| telegram_bot_debugger::time::hour_bucket(c.last_seen))
        .collect();
    let expected = Statistics::from_chats_with_hours(&refs, &hours);
    assert_eq!(stats.hourly_distribution, expected.hourly_distribution);
    // Chats 1 and 3 were last seen within the same second-long stretch of
    // an hour: they share a bucket.
    let shared = stats
        .hourly_distribution
        .iter()
        .find(|(h, _)| *h == hours[0])
        .unwrap();
    assert!(shared.1 >= 16);
    let counted: usize = stats.hourly_distribution.iter().map(|(_, n)| n).sum();
    assert_eq!(counted, stats.total_messages);
}

#[test]
fn test_kind_distribution() {
    let chats = vec![
        discovered(1, "group", "a", 5, 0),
        discovered(2, "private", "b", 7, 0),
        discovered(3, "group", "c", 11, 0),
        discovered(4, "", "d", 1, 0),
    ];
    let refs: Vec<&DiscoveredChat> = chats.iter().collect();
    let stats = Statistics::from_chats(&refs);
    assert_eq!(stats.chat_type_distribution.len(), 3);
    assert_eq!(stats.chat_type_count("group"), 2);
    assert_eq!(stats.chat_type_count("private"), 1);
    assert_eq!(stats.chat_type_count(""), 1);
    assert_eq!(stats.chat_type_count("channel"), 0);
    assert_eq!(stats.total_topics, 0);
}

#[test]
fn test_statistics_that_do_not_fit() {
    let chats = vec![
        discovered(1, "group", "a", usize::MAX, 0),
        discovered(2, "group", "b", 1, 0),
    ];
    let refs: Vec<&DiscoveredChat> = chats.iter().collect();
    assert!(!Statistics::fits(&refs));
    assert!(Statistics::try_from_chats(&refs).is_none());
    assert!(Statistics::fits(&refs[..1]));
    let stats = Statistics::try_from_chats(&refs[..1]).unwrap();
    assert_eq!(stats.total_messages, usize::MAX);
    assert_eq!(stats.total_chats, 1);
}
