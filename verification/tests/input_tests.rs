use telegram_bot_debugger::app::{App, InputFocus, Screen, TestMessageMode, ToggleAction};
use telegram_bot_debugger::input::{
    handle_discovery, handle_key, handle_messages, handle_monitor, handle_test_message,
    handle_token_input, try_handle_global_keys, try_handle_raw_json_keys, Key, KeyAction, Work,
};
use telegram_bot_debugger::telegram::{Chat, Message, Update};

fn create_test_app() -> App {
    App::new(Some("123456:ABC-DEF".to_string()))
}

fn message_update(update_id: i64, chat_id: i64, date: i64) -> Update {
    Update {
        update_id,
        message: Some(Message {
            message_id: update_id,
            from: None,
            chat: Chat {
                id: chat_id,
                chat_type: "private".to_string(),
                title: None,
                username: None,
                first_name: Some("Test".to_string()),
                last_name: None,
            },
            date,
            text: Some("Test".to_string()),
            message_thread_id: None,
            reply_to_message: None,
            other: Vec::new(),
        }),
        channel_post: None,
        edited_message: None,
        other: Vec::new(),
    }
}

// Global key handler tests
#[test]
fn test_esc_hierarchical_navigation_from_discovery() {
    let mut app = create_test_app();
    app.ui.current_screen = Screen::Discovery;

    let (action, work) = try_handle_global_keys(&mut app, Key::Esc);
    assert_eq!(action, KeyAction::Handled);
    assert!(work.is_none());
    assert_eq!(app.ui.current_screen, Screen::Home);
}

#[test]
fn test_esc_from_home_quits() {
    let mut app = create_test_app();
    app.ui.current_screen = Screen::Home;

    let (action, _) = try_handle_global_keys(&mut app, Key::Esc);
    assert_eq!(action, KeyAction::Handled);
    assert!(app.ui.should_quit);
}

#[test]
fn test_esc_from_messages_goes_to_discovery() {
    let mut app = create_test_app();
    app.ui.current_screen = Screen::Messages;

    let (action, _) = try_handle_global_keys(&mut app, Key::Esc);
    assert_eq!(action, KeyAction::Handled);
    assert_eq!(app.ui.current_screen, Screen::Discovery);
}

#[test]
fn test_help_key() {
    let mut app = create_test_app();

    let (action, _) = try_handle_global_keys(&mut app, Key::Char('h'));
    assert_eq!(action, KeyAction::Handled);
    assert_eq!(app.ui.current_screen, Screen::Help);
}

#[test]
fn test_number_key_1() {
    let mut app = create_test_app();

    let (action, _) = try_handle_global_keys(&mut app, Key::Char('1'));
    assert_eq!(action, KeyAction::Handled);
    assert_eq!(app.ui.current_screen, Screen::Discovery);
}

#[test]
fn test_unknown_key_not_handled() {
    let mut app = create_test_app();

    let (action, work) = try_handle_global_keys(&mut app, Key::Char('x'));
    assert_eq!(action, KeyAction::NotHandled);
    assert!(work.is_none());
}

// RawJson screen-specific tests
#[test]
fn test_raw_json_up_key() {
    let mut app = create_test_app();
    app.ui.current_screen = Screen::RawJson;

    let (action, _) = try_handle_raw_json_keys(&mut app, Key::Up);
    assert_eq!(action, KeyAction::Handled);
}

#[test]
fn test_raw_json_down_key() {
    let mut app = create_test_app();
    app.ui.current_screen = Screen::RawJson;

    let (action, _) = try_handle_raw_json_keys(&mut app, Key::Down);
    assert_eq!(action, KeyAction::Handled);
}

#[test]
fn test_raw_json_export_key() {
    let mut app = create_test_app();
    app.ui.current_screen = Screen::RawJson;

    let (action, work) = try_handle_raw_json_keys(&mut app, Key::Char('e'));
    assert_eq!(action, KeyAction::Handled);
    assert!(matches!(work, Some(Work::ExportUpdate)));
}

#[test]
fn test_raw_json_keys_on_wrong_screen() {
    let mut app = create_test_app();
    app.ui.current_screen = Screen::Home; // Not RawJson

    let (action, _) = try_handle_raw_json_keys(&mut app, Key::Up);
    assert_eq!(action, KeyAction::NotHandled);
}

#[test]
fn test_raw_json_unknown_key() {
    let mut app = create_test_app();
    app.ui.current_screen = Screen::RawJson;

    let (action, _) = try_handle_raw_json_keys(&mut app, Key::Char('x'));
    assert_eq!(action, KeyAction::NotHandled);
}

// KeyAction enum tests
#[test]
fn test_key_action_equality() {
    assert_eq!(KeyAction::Handled, KeyAction::Handled);
    assert_eq!(KeyAction::NotHandled, KeyAction::NotHandled);
    assert_ne!(KeyAction::Handled, KeyAction::NotHandled);
}

#[test]
fn test_global_keys_show_their_screens() {
    let cases = [
        ('H', Screen::Help),
        ('2', Screen::Monitor),
        ('3', Screen::Analytics),
        ('4', Screen::RawJson),
        ('m', Screen::TestMessage),
        ('M', Screen::TestMessage),
    ];
    for (c, screen) in cases {
        let mut app = create_test_app();
        app.ui.set_status("status".to_string());
        let (action, _) = try_handle_global_keys(&mut app, Key::Char(c));
        assert_eq!(action, KeyAction::Handled);
        assert_eq!(app.ui.current_screen, screen);
        assert_eq!(app.ui.previous_screen, Some(Screen::Home));
        assert!(app.ui.status_message.is_none());
    }
}

#[test]
fn test_f5_toggles_monitoring() {
    let mut app = create_test_app();
    let (action, work) = try_handle_global_keys(&mut app, Key::F(5));
    assert_eq!(action, KeyAction::Handled);
    match work {
        Some(Work::Monitor(ToggleAction::Spawn(task))) => assert_eq!(task.offset(), 0),
        _ => panic!("a task should be handed out"),
    }
    assert!(app.monitoring.is_active());
    assert_eq!(app.ui.status_message, Some("Monitoring started".to_string()));

    let (_, work) = try_handle_global_keys(&mut app, Key::F(5));
    assert!(matches!(work, Some(Work::Monitor(ToggleAction::StopTask))));
    assert!(!app.monitoring.is_active());
    assert_eq!(app.ui.status_message, Some("Monitoring stopped".to_string()));

    let (action, _) = try_handle_global_keys(&mut app, Key::F(4));
    assert_eq!(action, KeyAction::NotHandled);
}

#[test]
fn test_f5_without_client_does_nothing() {
    let mut app = App::new(None);
    let (action, work) = try_handle_global_keys(&mut app, Key::F(5));
    assert_eq!(action, KeyAction::Handled);
    assert!(work.is_none());
    assert!(!app.monitoring.is_active());
    assert!(app.ui.status_message.is_none());
}

#[test]
fn test_token_input_keys() {
    let mut app = App::new(None);
    assert_eq!(app.ui.current_screen, Screen::TokenInput);
    app.ui.token_error = Some("bad".to_string());

    let (action, _) = handle_token_input(&mut app, Key::Char('a'));
    assert_eq!(action, KeyAction::Handled);
    handle_token_input(&mut app, Key::Char('b'));
    assert_eq!(app.ui.token_input, "ab");
    assert!(app.ui.token_error.is_none());

    handle_token_input(&mut app, Key::Backspace);
    assert_eq!(app.ui.token_input, "a");
    handle_token_input(&mut app, Key::Backspace);
    handle_token_input(&mut app, Key::Backspace);
    assert_eq!(app.ui.token_input, "");

    let (action, work) = handle_token_input(&mut app, Key::Enter);
    assert_eq!(action, KeyAction::Handled);
    assert!(matches!(work, Some(Work::ValidateToken)));

    let (action, _) = handle_token_input(&mut app, Key::Up);
    assert_eq!(action, KeyAction::NotHandled);
}

#[test]
fn test_test_message_keys() {
    let mut app = create_test_app();
    app.ui.current_screen = Screen::TestMessage;

    handle_test_message(&mut app, Key::Char('h'), false);
    handle_test_message(&mut app, Key::Char('i'), false);
    assert_eq!(app.ui.test_message_input, "hi");

    // Tab in SelectedChat mode switches to the manual mode, chat id first.
    handle_test_message(&mut app, Key::Tab, false);
    assert_eq!(app.ui.test_message_mode, TestMessageMode::ManualChatId);
    assert_eq!(app.ui.test_message_input_focus, InputFocus::ChatId);
    handle_test_message(&mut app, Key::Char('4'), false);
    handle_test_message(&mut app, Key::Char('2'), false);
    assert_eq!(app.ui.manual_chat_id_input, "42");
    handle_test_message(&mut app, Key::Backspace, false);
    assert_eq!(app.ui.manual_chat_id_input, "4");

    // Tab in manual mode moves the focus.
    handle_test_message(&mut app, Key::Tab, false);
    assert_eq!(app.ui.test_message_mode, TestMessageMode::ManualChatId);
    assert_eq!(app.ui.test_message_input_focus, InputFocus::MessageText);
    handle_test_message(&mut app, Key::Backspace, false);
    assert_eq!(app.ui.test_message_input, "h");

    // Shift+Tab and BackTab change the mode.
    handle_test_message(&mut app, Key::Tab, true);
    assert_eq!(app.ui.test_message_mode, TestMessageMode::SelectedChat);
    handle_test_message(&mut app, Key::BackTab, false);
    assert_eq!(app.ui.test_message_mode, TestMessageMode::ManualChatId);

    let (action, work) = handle_test_message(&mut app, Key::Enter, false);
    assert_eq!(action, KeyAction::Handled);
    assert!(matches!(work, Some(Work::SendTestMessage)));
    let (action, _) = handle_test_message(&mut app, Key::Esc, false);
    assert_eq!(action, KeyAction::NotHandled);
}

#[test]
fn test_monitor_keys() {
    let mut app = create_test_app();
    app.ui.current_screen = Screen::Monitor;

    let (action, _) = handle_monitor(&mut app, Key::Char('p'));
    assert_eq!(action, KeyAction::Handled);
    assert!(app.monitoring.paused);
    handle_monitor(&mut app, Key::Char('P'));
    assert!(!app.monitoring.paused);

    let (_, work) = handle_monitor(&mut app, Key::Char('m'));
    assert!(matches!(work, Some(Work::Monitor(ToggleAction::Spawn(_)))));
    app.process_received_updates(vec![vec![message_update(1, 100, 1000)]]);
    assert_eq!(app.monitoring.messages.len(), 1);

    app.ui.needs_render = false;
    handle_monitor(&mut app, Key::Char('c'));
    assert_eq!(app.monitoring.messages.len(), 0);
    assert!(app.ui.needs_render);

    let (action, _) = handle_monitor(&mut app, Key::Char('x'));
    assert_eq!(action, KeyAction::NotHandled);
}

#[test]
fn test_discovery_and_messages_keys() {
    let mut app = create_test_app();
    app.monitoring.start(0);
    app.process_received_updates(vec![vec![
        message_update(1, 100, 1000),
        message_update(2, 200, 2000),
        message_update(3, 100, 1500),
    ]]);
    app.ui.current_screen = Screen::Discovery;

    // Chats by last seen: 200 (2000), 100 (1500).
    assert_eq!(app.get_selected_chat().unwrap().chat.id, 200);
    handle_discovery(&mut app, Key::Down);
    assert_eq!(app.ui.selected_chat_index, 1);
    assert_eq!(app.get_selected_chat().unwrap().chat.id, 100);
    handle_discovery(&mut app, Key::Down);
    assert_eq!(app.ui.selected_chat_index, 0);
    handle_discovery(&mut app, Key::Up);
    assert_eq!(app.ui.selected_chat_index, 1);

    let (_, work) = handle_discovery(&mut app, Key::Char('e'));
    assert!(matches!(work, Some(Work::ExportChat)));

    app.ui.selected_message_index = 5;
    handle_discovery(&mut app, Key::Enter);
    assert_eq!(app.ui.current_screen, Screen::Messages);
    assert_eq!(app.ui.selected_message_index, 0);

    // Chat 100 has two kept messages.
    handle_messages(&mut app, Key::Down);
    assert_eq!(app.ui.selected_message_index, 1);
    assert_eq!(
        app.get_selected_message_for_current_chat().unwrap().update_id,
        3
    );
    handle_messages(&mut app, Key::Down);
    assert_eq!(app.ui.selected_message_index, 0);
    handle_messages(&mut app, Key::Up);
    assert_eq!(app.ui.selected_message_index, 1);
    let (_, work) = handle_messages(&mut app, Key::Char('E'));
    assert!(matches!(work, Some(Work::ExportMessage)));
}

#[test]
fn test_handle_key_routes_and_marks_dirty() {
    let mut app = create_test_app();
    app.ui.needs_render = false;
    // Home takes no key itself: '4' goes to the global keys.
    let work = handle_key(&mut app, Key::Char('4'), false);
    assert!(work.is_none());
    assert_eq!(app.ui.current_screen, Screen::RawJson);
    assert!(app.ui.needs_render);

    // On the token input a character is typed and does not switch screens.
    let mut app = App::new(None);
    let work = handle_key(&mut app, Key::Char('1'), false);
    assert!(work.is_none());
    assert_eq!(app.ui.current_screen, Screen::TokenInput);
    assert_eq!(app.ui.token_input, "1");

    // The list of kept updates gets its keys after the global ones.
    let mut app = create_test_app();
    app.ui.current_screen = Screen::RawJson;
    let work = handle_key(&mut app, Key::Char('e'), false);
    assert!(matches!(work, Some(Work::ExportUpdate)));
    let work = handle_key(&mut app, Key::Enter, false);
    assert!(work.is_none());
}
