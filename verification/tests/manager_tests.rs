use telegram_bot_debugger::app::telegram_manager::{
    check_token, conclude_send, extract_monitor_message, monitor_message_of,
};
use telegram_bot_debugger::app::{
    MonitorMessage, TelegramManager, TestMessageMode, TokenValidationResult,
};
use telegram_bot_debugger::telegram::{
    ChannelPost, Chat, DiscoveredChat, Message, Update, User,
};

fn chat(id: i64) -> Chat {
    Chat {
        id,
        chat_type: "private".to_string(),
        title: None,
        username: None,
        first_name: Some("Ann".to_string()),
        last_name: None,
    }
}

fn message(chat_id: i64, date: i64) -> Message {
    Message {
        message_id: 1,
        from: Some(User {
            id: 1,
            is_bot: false,
            first_name: "Ann".to_string(),
            last_name: None,
            username: Some("ann".to_string()),
        }),
        chat: chat(chat_id),
        date,
        text: Some("hello".to_string()),
        message_thread_id: None,
        reply_to_message: None,
        other: Vec::new(),
    }
}

fn message_update(update_id: i64, chat_id: i64, date: i64) -> Update {
    Update {
        update_id,
        message: Some(message(chat_id, date)),
        channel_post: None,
        edited_message: None,
        other: Vec::new(),
    }
}

fn post_update(update_id: i64, chat_id: i64) -> Update {
    Update {
        update_id,
        message: None,
        channel_post: Some(ChannelPost {
            message_id: 1,
            chat: Chat {
                id: chat_id,
                chat_type: "channel".to_string(),
                title: Some("News".to_string()),
                username: None,
                first_name: None,
                last_name: None,
            },
            date: 1000,
            text: None,
            other: Vec::new(),
        }),
        edited_message: None,
        other: Vec::new(),
    }
}

fn discovered(id: i64) -> DiscoveredChat {
    DiscoveredChat { chat: chat(id), last_seen: 1000, message_count: 1, topics: Vec::new() }
}

#[test]
fn test_check_token() {
    assert!(matches!(check_token(""), Err(TokenValidationResult::Empty)));
    assert!(matches!(check_token("  \t\n "), Err(TokenValidationResult::Empty)));
    assert_eq!(check_token("  123:abc \n").unwrap(), "123:abc");
    // Inner white space stays; no-break space and ideographic space go.
    assert_eq!(check_token("\u{a0}a b\u{3000}").unwrap(), "a b");
    let longest = "x".repeat(256);
    assert_eq!(check_token(&longest).unwrap(), longest);
    assert!(matches!(
        check_token(&"x".repeat(257)),
        Err(TokenValidationResult::TooLong(256))
    ));
    // The length is counted in bytes: 129 characters of two bytes are too long.
    assert!(matches!(
        check_token(&"é".repeat(129)),
        Err(TokenValidationResult::TooLong(256))
    ));
    assert!(check_token(&"é".repeat(128)).is_ok());
    // The white space around the token does not count.
    assert!(check_token(&format!("  {}  ", "x".repeat(256))).is_ok());
}

#[test]
fn test_conclude_validation() {
    let mut manager = TelegramManager::new();
    assert!(manager.client_token.is_none());
    match manager.conclude_validation("t1".to_string(), Ok(false)) {
        TokenValidationResult::Invalid(why) => assert_eq!(why, "Invalid token"),
        _ => panic!("an unknown token is invalid"),
    }
    assert!(manager.client_token.is_none());
    match manager.conclude_validation("t1".to_string(), Err("timed out".to_string())) {
        TokenValidationResult::Invalid(why) => assert_eq!(why, "Error: timed out"),
        _ => panic!("an error is no validation"),
    }
    assert!(manager.client_token.is_none());
    match manager.conclude_validation("t1".to_string(), Ok(true)) {
        TokenValidationResult::Valid(token) => assert_eq!(token, "t1"),
        _ => panic!("a known token is valid"),
    }
    assert_eq!(manager.client_token, Some("t1".to_string()));
}

#[test]
fn test_prepare_test_message_errors_in_order() {
    let without_client = TelegramManager::new();
    let refused = without_client
        .prepare_test_message("", "", TestMessageMode::SelectedChat, None)
        .unwrap_err();
    assert!(!refused.success);
    assert_eq!(refused.message, "✗ Error: No client available");

    let manager = TelegramManager::new_with_token("t".to_string());
    let refuse = |text: &str, id: &str, mode: TestMessageMode, chat: Option<&DiscoveredChat>| {
        manager.prepare_test_message(text, id, mode, chat).unwrap_err().message
    };
    let selected = discovered(55);
    assert_eq!(
        refuse("  ", "abc", TestMessageMode::ManualChatId, None),
        "✗ Error: Message cannot be empty"
    );
    assert_eq!(
        refuse(&"a".repeat(4097), "", TestMessageMode::SelectedChat, Some(&selected)),
        "✗ Error: Message too long (max 4096 characters)"
    );
    assert_eq!(
        refuse("hi", "12", TestMessageMode::SelectedChat, None),
        "✗ Error: No chat selected"
    );
    assert_eq!(
        refuse("hi", "   ", TestMessageMode::ManualChatId, Some(&selected)),
        "✗ Error: Chat ID cannot be empty"
    );
    assert_eq!(
        refuse("hi", &"1".repeat(21), TestMessageMode::ManualChatId, None),
        "✗ Error: Chat ID too long (max 20 chars)"
    );
    for bad in ["12a", "-", "+", "1 2", "1.5", "0x10", "99999999999999999999", "１２"] {
        assert_eq!(
            refuse("hi", bad, TestMessageMode::ManualChatId, None),
            "✗ Error: Invalid chat ID format (must be a number)"
        );
    }
}

#[test]
fn test_prepare_test_message_accepts() {
    let manager = TelegramManager::new_with_token("t".to_string());
    let selected = discovered(55);
    let ready = manager
        .prepare_test_message("  hi there \n", "77", TestMessageMode::SelectedChat, Some(&selected))
        .unwrap();
    assert_eq!(ready.chat_id, 55);
    assert_eq!(ready.text, "hi there");

    let accept = |id: &str| {
        manager
            .prepare_test_message("x", id, TestMessageMode::ManualChatId, Some(&selected))
            .unwrap()
            .chat_id
    };
    assert_eq!(accept(" 77 "), 77);
    assert_eq!(accept("-1001234567890"), -1001234567890);
    assert_eq!(accept("+5"), 5);
    assert_eq!(accept("007"), 7);
    assert_eq!(accept("-0"), 0);
    assert_eq!(accept("9223372036854775807"), i64::MAX);
    assert_eq!(accept("-9223372036854775808"), i64::MIN);
    let longest = "a".repeat(4096);
    assert_eq!(
        manager
            .prepare_test_message(&longest, "1", TestMessageMode::ManualChatId, None)
            .unwrap()
            .text,
        longest
    );
}

#[test]
fn test_conclude_send() {
    let sent = conclude_send(true, Some("ignored".to_string()));
    assert!(sent.success);
    assert_eq!(sent.message, "✓ Message sent successfully!");
    let failed = conclude_send(false, Some("Bad Request: chat not found".to_string()));
    assert!(!failed.success);
    assert_eq!(failed.message, "✗ Error: Bad Request: chat not found");
    assert_eq!(conclude_send(false, None).message, "✗ Error: Unknown error");
}

#[test]
fn test_monitor_message_of() {
    let shown = monitor_message_of(&message_update(1, 100, 1000), 42).unwrap();
    assert_eq!(shown.timestamp, 42);
    assert_eq!(shown.chat_name, "Ann");
    assert_eq!(shown.sender, Some("ann".to_string()));
    assert_eq!(shown.text, "hello");

    let mut update = message_update(1, 100, 1000);
    let m = update.message.as_mut().unwrap();
    m.from.as_mut().unwrap().username = None;
    m.text = None;
    let shown = monitor_message_of(&update, 7).unwrap();
    assert_eq!(shown.sender, Some("Ann".to_string()));
    assert_eq!(shown.text, "[No text]");
    update.message.as_mut().unwrap().from = None;
    assert_eq!(monitor_message_of(&update, 7).unwrap().sender, None);

    let shown = monitor_message_of(&post_update(2, -5), 9).unwrap();
    assert_eq!(shown.chat_name, "News");
    assert_eq!(shown.sender, None);
    assert_eq!(shown.text, "[No text]");

    // An edit alone shows nothing.
    let edit = Update {
        update_id: 3,
        message: None,
        channel_post: None,
        edited_message: Some(message(100, 1000)),
        other: Vec::new(),
    };
    assert!(monitor_message_of(&edit, 1).is_none());
}

#[test]
fn test_extract_monitor_message_keeps_the_last_hundred() {
    let mut shown: Vec<MonitorMessage> = Vec::new();
    for i in 0..100 {
        let mut update = message_update(i, 100, 1000);
        update.message.as_mut().unwrap().text = Some(format!("m{i}"));
        extract_monitor_message(&update, &mut shown);
    }
    assert_eq!(shown.len(), 100);
    assert_eq!(shown[0].text, "m0");
    let mut update = message_update(100, 100, 1000);
    update.message.as_mut().unwrap().text = Some("m100".to_string());
    extract_monitor_message(&update, &mut shown);
    assert_eq!(shown.len(), 100);
    assert_eq!(shown[0].text, "m1");
    assert_eq!(shown[99].text, "m100");
    assert!(shown[99].timestamp > 1_600_000_000);
}

#[test]
fn test_process_updates_batch_shows_only_what_is_new() {
    let mut manager = TelegramManager::new();
    let mut shown: Vec<MonitorMessage> = Vec::new();
    manager.process_updates_batch(
        vec![
            message_update(5, 100, 1000),
            message_update(3, 100, 1001),
            message_update(5, 200, 1002),
            post_update(6, -7),
        ],
        &mut shown,
    );
    // Updates 3 and the second 5 are not new: neither kept nor shown...
    assert_eq!(manager.last_processed_update_id, 6);
    assert_eq!(manager.raw_updates.len(), 2);
    assert_eq!(manager.raw_updates[0].update_id, 5);
    assert_eq!(manager.raw_updates[1].update_id, 6);
    assert_eq!(shown.len(), 2);
    assert_eq!(shown[1].chat_name, "News");
    // ...but the processor counts them all.
    let chats = manager.get_discovered_chats();
    assert_eq!(chats.len(), 3);
    assert_eq!(chats.iter().find(|c| c.chat.id == 100).unwrap().message_count, 2);
    assert_eq!(manager.update_processor.last_update_id(), 6);
}

#[test]
fn test_process_updates_batch_keeps_the_last_fifty() {
    let mut manager = TelegramManager::new();
    let mut shown: Vec<MonitorMessage> = Vec::new();
    let updates: Vec<Update> = (1..=60).map(|i| message_update(i, 100 + i % 3, 1000)).collect();
    manager.process_updates_batch(updates, &mut shown);
    assert_eq!(manager.raw_updates.len(), 50);
    assert_eq!(manager.raw_updates[0].update_id, 11);
    assert_eq!(manager.raw_updates[49].update_id, 60);
    assert_eq!(shown.len(), 60);
    assert_eq!(manager.get_selected_update(0).unwrap().update_id, 11);
    assert_eq!(manager.get_selected_update(49).unwrap().update_id, 60);
    assert!(manager.get_selected_update(50).is_none());
}

#[test]
fn test_get_messages_for_chat() {
    let mut manager = TelegramManager::new();
    let mut shown: Vec<MonitorMessage> = Vec::new();
    let mut both = message_update(4, 100, 1000);
    both.channel_post = post_update(4, 300).channel_post;
    let edit = Update {
        update_id: 5,
        message: None,
        channel_post: None,
        edited_message: Some(message(100, 1000)),
        other: Vec::new(),
    };
    manager.process_updates_batch(
        vec![
            message_update(1, 100, 1000),
            message_update(2, 200, 1000),
            post_update(3, 300),
            both,
            edit,
        ],
        &mut shown,
    );
    let ids = |chat_id: i64| -> Vec<i64> {
        manager.get_messages_for_chat(chat_id).iter().map(|u| u.update_id).collect()
    };
    assert_eq!(ids(100), vec![1, 4]);
    assert_eq!(ids(200), vec![2]);
    // An update with a message is judged by the message alone.
    assert_eq!(ids(300), vec![3]);
    assert_eq!(ids(999), Vec::<i64>::new());

    assert_eq!(manager.get_selected_message_for_chat(Some(100), 1).unwrap().update_id, 4);
    assert!(manager.get_selected_message_for_chat(Some(100), 2).is_none());
    assert!(manager.get_selected_message_for_chat(None, 0).is_none());
}

#[test]
fn test_default_manager() {
    let manager = TelegramManager::default();
    assert!(manager.client_token.is_none());
    assert!(manager.raw_updates.is_empty());
    assert!(manager.raw_json_updates.is_empty());
    assert_eq!(manager.last_processed_update_id, 0);
    assert_eq!(manager.get_discovered_chats().len(), 0);
}
