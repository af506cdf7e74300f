use telegram_bot_debugger::app::{
    App, MonitoringCommand, MonitoringService, PollStep, PollTask, TelegramManager, ToggleAction,
};
use telegram_bot_debugger::telegram::{Chat, GetUpdatesResponse, Message, Update};

fn message_update(update_id: i64, chat_id: i64, date: i64) -> Update {
    Update {
        update_id,
        message: Some(Message {
            message_id: update_id,
            from: None,
            chat: Chat {
                id: chat_id,
                chat_type: "private".to_string(),
                title: None,
                username: None,
                first_name: Some("Test".to_string()),
                last_name: None,
            },
            date,
            text: Some("Test".to_string()),
            message_thread_id: None,
            reply_to_message: None,
            other: Vec::new(),
        }),
        channel_post: None,
        edited_message: None,
        other: Vec::new(),
    }
}

#[test]
fn test_new_service_is_stopped() {
    let service = MonitoringService::new();
    assert!(!service.is_active());
    assert!(!service.paused);
    assert!(service.messages.is_empty());
    let service = MonitoringService::default();
    assert!(!service.is_active());
}

#[test]
fn test_start_then_stop_leaves_no_task() {
    let mut service = MonitoringService::new();
    let task = service.start(41);
    assert!(service.is_active());
    assert_eq!(task.unwrap().offset(), 41);

    // An immediate stop has exactly that task to wait for.
    assert!(service.stop());
    assert!(!service.is_active());
    // Stopping again is safe and finds nothing to wait for.
    assert!(!service.stop());

    // A later start succeeds and hands out exactly one task.
    let task = service.start(50);
    assert_eq!(task.unwrap().offset(), 50);
    assert!(service.is_active());
    assert!(service.start(60).is_none());
    assert!(service.is_active());
}

#[test]
fn test_toggle_starts_and_stops() {
    let mut service = MonitoringService::new();
    match service.toggle(7) {
        ToggleAction::Spawn(task) => assert_eq!(task.offset(), 7),
        ToggleAction::StopTask => panic!("a stopped monitor starts"),
    }
    assert!(service.is_active());
    assert!(matches!(service.toggle(9), ToggleAction::StopTask));
    assert!(!service.is_active());
}

#[test]
fn test_toggle_pause_leaves_the_task_alone() {
    let mut service = MonitoringService::new();
    service.start(0);
    service.toggle_pause();
    assert!(service.paused);
    assert!(service.is_active());
    service.toggle_pause();
    assert!(!service.paused);
    assert!(service.is_active());
}

#[test]
fn test_receive_updates() {
    let mut service = MonitoringService::new();
    // A stopped monitor hands on nothing.
    assert!(service.receive_updates(vec![vec![message_update(1, 1, 1)]]).is_none());
    service.start(0);
    assert!(service.receive_updates(vec![]).is_none());
    let batches = service
        .receive_updates(vec![
            vec![message_update(1, 1, 1), message_update(2, 1, 2)],
            vec![message_update(3, 1, 3)],
        ])
        .unwrap();
    assert_eq!(batches.len(), 2);
    assert_eq!(batches[0].len(), 2);
    assert_eq!(batches[1][0].update_id, 3);
    // Paused or not, the queue is drained alike.
    service.toggle_pause();
    assert_eq!(
        service.receive_updates(vec![vec![message_update(4, 1, 4)]]).unwrap().len(),
        1
    );
}

#[test]
fn test_paused_monitor_still_consumes() {
    let mut app = App::new(Some("token".to_string()));
    app.toggle_monitoring();
    app.toggle_monitor_pause();
    app.ui.needs_render = false;

    app.process_received_updates(vec![
        vec![message_update(1, 100, 1000)],
        vec![message_update(2, 100, 1001), message_update(3, 200, 1002)],
    ]);
    // Every batch reached the processor...
    let chats = app.get_discovered_chats();
    assert_eq!(chats.len(), 2);
    assert_eq!(chats.iter().find(|c| c.chat.id == 100).unwrap().message_count, 2);
    // ...but nothing is shown.
    assert!(app.monitoring.messages.is_empty());
    assert!(app.telegram.raw_updates.is_empty());
    assert_eq!(app.telegram.last_processed_update_id, 0);
    assert!(app.ui.needs_render);

    // Repeated polls with an empty queue change nothing.
    app.ui.needs_render = false;
    app.process_received_updates(vec![]);
    assert!(!app.ui.needs_render);

    app.toggle_monitor_pause();
    app.process_received_updates(vec![vec![message_update(4, 100, 1003)]]);
    assert_eq!(app.monitoring.messages.len(), 1);
    assert_eq!(app.telegram.raw_updates.len(), 1);
    assert_eq!(app.telegram.last_processed_update_id, 4);
    assert_eq!(
        app.get_discovered_chats().iter().find(|c| c.chat.id == 100).unwrap().message_count,
        3
    );
}

#[test]
fn test_pause_leaves_what_is_shown_as_it_was() {
    let mut app = App::new(Some("token".to_string()));
    app.toggle_monitoring();
    app.process_received_updates(vec![vec![
        message_update(1, 100, 1000),
        message_update(2, 200, 1001),
    ]]);
    let shown: Vec<(i64, String, Option<String>, String)> = app
        .monitoring
        .messages
        .iter()
        .map(|m| (m.timestamp, m.chat_name.clone(), m.sender.clone(), m.text.clone()))
        .collect();
    assert_eq!(shown.len(), 2);
    let kept: Vec<i64> = app.telegram.raw_updates.iter().map(|u| u.update_id).collect();

    app.toggle_monitor_pause();
    app.process_received_updates(vec![
        vec![message_update(3, 100, 1002)],
        vec![message_update(4, 300, 1003)],
    ]);
    let after: Vec<(i64, String, Option<String>, String)> = app
        .monitoring
        .messages
        .iter()
        .map(|m| (m.timestamp, m.chat_name.clone(), m.sender.clone(), m.text.clone()))
        .collect();
    assert_eq!(after, shown);
    let kept_after: Vec<i64> = app.telegram.raw_updates.iter().map(|u| u.update_id).collect();
    assert_eq!(kept_after, kept);
    assert_eq!(app.telegram.last_processed_update_id, 2);
    // The processor has seen all four.
    assert_eq!(app.telegram.update_processor.last_update_id(), 4);
    assert_eq!(app.get_discovered_chats().len(), 3);
    assert!(app.ui.needs_render);
}

#[test]
fn test_stopped_monitor_feeds_nothing() {
    let mut app = App::new(Some("token".to_string()));
    app.process_received_updates(vec![vec![message_update(1, 100, 1000)]]);
    assert_eq!(app.get_discovered_chats().len(), 0);
    assert!(app.monitoring.messages.is_empty());
}

#[test]
fn test_feed_respects_pause() {
    let mut service = MonitoringService::new();
    let mut telegram = TelegramManager::new();
    service.feed(&mut telegram, vec![message_update(5, 100, 1000)]);
    assert_eq!(service.messages.len(), 1);
    assert_eq!(service.messages[0].chat_name, "Test");
    assert_eq!(service.messages[0].text, "Test");
    assert_eq!(service.messages[0].sender, None);
    assert_eq!(telegram.raw_updates.len(), 1);
    service.toggle_pause();
    service.feed(&mut telegram, vec![message_update(6, 100, 1001)]);
    assert_eq!(service.messages.len(), 1);
    assert_eq!(telegram.raw_updates.len(), 1);
    assert_eq!(telegram.update_processor.last_update_id(), 6);
    service.clear_messages();
    assert!(service.messages.is_empty());
}

#[test]
fn test_poll_task_round() {
    let mut task = PollTask::new(10);
    assert_eq!(task.offset(), 10);
    assert!(task.can_fetch());

    // A command to stop ends the task.
    assert!(matches!(task.on_control(Some(MonitoringCommand::Stop)), PollStep::Exit));
    // Else the task asks for what lies behind its offset, waiting one second.
    match task.on_control(None) {
        PollStep::Fetch { offset, timeout_secs } => {
            assert_eq!(offset, 11);
            assert_eq!(timeout_secs, 1);
        }
        _ => panic!("the task should fetch"),
    }

    // A batch raises the offset to its highest id, whatever the order.
    let answer = GetUpdatesResponse {
        ok: true,
        result: vec![
            message_update(12, 1, 1),
            message_update(15, 1, 2),
            message_update(13, 1, 3),
        ],
    };
    match task.on_fetched(Some(answer)) {
        PollStep::Deliver(batch) => assert_eq!(batch.len(), 3),
        _ => panic!("the batch should be delivered"),
    }
    assert_eq!(task.offset(), 15);

    // Delivered: sleep two seconds. Receiver gone: exit.
    assert!(matches!(task.on_delivered(true), PollStep::Sleep { secs: 2 }));
    assert!(matches!(task.on_delivered(false), PollStep::Exit));
}

#[test]
fn test_poll_task_keeps_offset_without_news() {
    let mut task = PollTask::new(10);
    // A failed fetch is retried after the sleep.
    assert!(matches!(task.on_fetched(None), PollStep::Sleep { secs: 2 }));
    assert_eq!(task.offset(), 10);
    // An empty answer and one that is not ok change nothing.
    let empty = GetUpdatesResponse { ok: true, result: vec![] };
    assert!(matches!(task.on_fetched(Some(empty)), PollStep::Sleep { secs: 2 }));
    let refused = GetUpdatesResponse { ok: false, result: vec![message_update(99, 1, 1)] };
    assert!(matches!(task.on_fetched(Some(refused)), PollStep::Sleep { secs: 2 }));
    assert_eq!(task.offset(), 10);
    // Ids below the offset do not lower it.
    let old = GetUpdatesResponse { ok: true, result: vec![message_update(3, 1, 1)] };
    assert!(matches!(task.on_fetched(Some(old)), PollStep::Deliver(_)));
    assert_eq!(task.offset(), 10);
}

#[test]
fn test_poll_task_at_the_last_id() {
    let task = PollTask::new(i64::MAX);
    assert!(!task.can_fetch());
    // At the last id the task can still be told to stop.
    assert!(matches!(task.on_control(Some(MonitoringCommand::Stop)), PollStep::Exit));
    let task = PollTask::new(i64::MAX - 1);
    assert!(task.can_fetch());
    match task.on_control(None) {
        PollStep::Fetch { offset, .. } => assert_eq!(offset, i64::MAX),
        _ => panic!("the task should fetch"),
    }
}
