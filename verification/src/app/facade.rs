//! The application as one value: the user interface, the bot and the live
//! monitor, and what a step of the application does to the three.

use super::monitoring::{MonitoringService, ToggleAction};
use super::state::{Screen, UiState};
use super::telegram_manager::{
    check_token, messages_of_chat, raw_views, SendMessageResult, TelegramManager, TestMessage,
    TokenValidationResult, MAX_TOKEN_LENGTH,
};
use crate::analytics::stats::{total_messages, total_topics, Statistics};
use crate::telegram::registry::{
    batch_views, lemma_total_updates_grows, lemma_updates_use_room, registry_wf, total_updates,
    ProcessorView,
};
use crate::telegram::types::{chat_views, DiscoveredChat, DiscoveredChatView, Update, UpdateView};
use crate::telegram::updates::{is_snapshot, snapshot_of};
use crate::text::{append_digits, byte_len, decimal_digits, trimmed};
use std::sync::Arc;
use vstd::prelude::*;
use vstd::string::*;

verus! {

/// The application: what is on the screen, what the bot has received, and
/// the live monitor.
pub struct App {
    pub ui: UiState,
    pub telegram: TelegramManager,
    pub monitoring: MonitoringService,
}

impl App {
    /// The discovered chats as the chat list shows them, the one seen
    /// latest first.
    pub open spec fn chats(&self) -> Seq<DiscoveredChatView> {
        snapshot_of(self.telegram.update_processor@.registry)
    }

    /// The chat that is selected in the chat list, if the list is that
    /// long.
    pub open spec fn selected_chat(&self) -> Option<DiscoveredChatView> {
        if self.ui.selected_chat_index < self.chats().len() {
            Some(self.chats()[self.ui.selected_chat_index as int])
        } else {
            None
        }
    }

    /// The kept messages and channel posts of the selected chat.
    pub open spec fn selected_messages(&self) -> Option<Seq<UpdateView>> {
        match self.selected_chat() {
            Some(chat) => Some(messages_of_chat(raw_views(self.telegram.raw_updates@), chat.chat.id)),
            None => None,
        }
    }

    /// Whether `after` is `before` with the monitor started or stopped, and
    /// `action` what remains to be done. Without a client nothing happens.
    /// With one, a stopped monitor starts behind the last update fed and an
    /// active one stops; the status message says which.
    pub open spec fn monitoring_toggled(
        before: App,
        after: App,
        action: Option<ToggleAction>,
    ) -> bool {
        &&& after.telegram == before.telegram
        &&& after.monitoring.is_paused() == before.monitoring.is_paused()
        &&& after.monitoring.shown() == before.monitoring.shown()
        &&& before.telegram.client_token is None ==> action is None && after.ui == before.ui
            && after.monitoring.active() == before.monitoring.active()
        &&& before.telegram.client_token is Some ==> {
            &&& after.monitoring.active() == !before.monitoring.active()
            &&& after.ui == (UiState {
                status_message: after.ui.status_message,
                needs_render: true,
                ..before.ui
            })
            &&& (after.ui.status_message matches Some(status) && status@ == (if before.monitoring.active() {
                "Monitoring stopped"@
            } else {
                "Monitoring started"@
            }))
            &&& before.monitoring.active() ==> (action matches Some(ToggleAction::StopTask))
            &&& !before.monitoring.active() ==> (action matches Some(ToggleAction::Spawn(task))
                && task@ == before.telegram.last_processed_update_id)
        }
    }

    /// Whether `after` is `before` with another user interface, `ui`.
    pub open spec fn with_ui(before: App, after: App, ui: UiState) -> bool {
        &&& after.ui == ui
        &&& after.telegram == before.telegram
        &&& after.monitoring == before.monitoring
    }

    /// The application at its start. With a token it has a client and
    /// shows the home screen; without one it asks for the token.
    pub fn new(token: Option<String>) -> (app: Self)
        ensures
            app.ui.starts_on(
                if token is Some {
                    Screen::Home
                } else {
                    Screen::TokenInput
                },
            ),
            app.telegram.client_token == token,
            app.telegram.update_processor@ == ProcessorView::initial(),
            app.telegram.raw_updates@.len() == 0,
            app.telegram.raw_json_updates@.len() == 0,
            app.telegram.last_processed_update_id == 0,
            !app.monitoring.active(),
            !app.monitoring.is_paused(),
            app.monitoring.shown().len() == 0,
    {
        let mut ui = UiState::new();
        let telegram = match token {
            Some(token) => TelegramManager::new_with_token(token),
            None => {
                ui.current_screen = Screen::TokenInput;
                TelegramManager::new()
            },
        };
        App { ui, telegram, monitoring: MonitoringService::new() }
    }

    /// Asks the application to end.
    pub fn quit(&mut self)
        ensures
            final(self).ui == (UiState { should_quit: true, ..old(self).ui }),
            final(self).telegram == old(self).telegram,
            final(self).monitoring == old(self).monitoring,
    {
        self.ui.quit();
    }

    /// Notes that the screen has to be drawn again.
    pub fn mark_dirty(&mut self)
        ensures
            final(self).ui == old(self).ui.marked(),
            final(self).telegram == old(self).telegram,
            final(self).monitoring == old(self).monitoring,
    {
        self.ui.mark_dirty();
    }

    /// Notes that the screen has been drawn.
    pub fn clear_dirty(&mut self)
        ensures
            final(self).ui == (UiState { needs_render: false, ..old(self).ui }),
            final(self).telegram == old(self).telegram,
            final(self).monitoring == old(self).monitoring,
    {
        self.ui.clear_dirty();
    }

    /// Goes to `screen`. On the way to the analytics screen the statistics
    /// of the discovered chats are computed; they are missing if their sums
    /// do not fit in `usize`.
    pub fn switch_screen(&mut self, screen: Screen)
        ensures
            final(self).telegram == old(self).telegram,
            final(self).monitoring == old(self).monitoring,
            screen != Screen::Analytics ==> final(self).ui == old(self).ui.switched(screen),
            screen == Screen::Analytics ==> final(self).ui == (UiState {
                statistics: final(self).ui.statistics,
                ..old(self).ui.switched(screen)
            }),
            screen == Screen::Analytics ==> (final(self).ui.statistics is Some <==> total_messages(
                old(self).chats(),
            ) <= usize::MAX && total_topics(old(self).chats()) <= usize::MAX),
            screen == Screen::Analytics ==> (final(self).ui.statistics matches Some(stats)
                ==> stats@.describes_chats(old(self).chats())),
    {
        self.ui.switch_screen(screen);
        if screen == Screen::Analytics {
            let chats = self.telegram.get_discovered_chats();
            self.ui.statistics = Statistics::try_from_chats(chats.as_slice());
        }
    }

    /// Shows `message` as the status message.
    pub fn set_status(&mut self, message: String)
        ensures
            final(self).ui == (UiState {
                status_message: Some(message),
                needs_render: true,
                ..old(self).ui
            }),
            final(self).telegram == old(self).telegram,
            final(self).monitoring == old(self).monitoring,
    {
        self.ui.set_status(message);
    }

    /// Selects the next discovered chat, going round.
    pub fn next_chat(&mut self)
        ensures
            final(self).ui == old(self).ui.at_next_chat(old(self).chats().len() as usize),
            final(self).telegram == old(self).telegram,
            final(self).monitoring == old(self).monitoring,
    {
        let chat_count = self.telegram.get_discovered_chats().len();
        self.ui.next_chat(chat_count);
    }

    /// Selects the discovered chat before, going round.
    pub fn previous_chat(&mut self)
        ensures
            final(self).ui == old(self).ui.at_previous_chat(old(self).chats().len() as usize),
            final(self).telegram == old(self).telegram,
            final(self).monitoring == old(self).monitoring,
    {
        let chat_count = self.telegram.get_discovered_chats().len();
        self.ui.previous_chat(chat_count);
    }

    /// Selects the next message of the selected chat, going round. Without
    /// a selected chat nothing changes.
    pub fn next_message(&mut self)
        ensures
            final(self).ui == match old(self).selected_messages() {
                Some(messages) => old(self).ui.at_next_message(messages.len() as usize),
                None => old(self).ui,
            },
            final(self).telegram == old(self).telegram,
            final(self).monitoring == old(self).monitoring,
    {
        let count = self.selected_message_count();
        match count {
            Some(message_count) => self.ui.next_message(message_count),
            None => {},
        }
    }

    /// Selects the message before of the selected chat, going round.
    /// Without a selected chat nothing changes.
    pub fn previous_message(&mut self)
        ensures
            final(self).ui == match old(self).selected_messages() {
                Some(messages) => old(self).ui.at_previous_message(messages.len() as usize),
                None => old(self).ui,
            },
            final(self).telegram == old(self).telegram,
            final(self).monitoring == old(self).monitoring,
    {
        let count = self.selected_message_count();
        match count {
            Some(message_count) => self.ui.previous_message(message_count),
            None => {},
        }
    }

    /// How many kept messages the selected chat has, if a chat is selected.
    fn selected_message_count(&self) -> (count: Option<usize>)
        ensures
            match count {
                Some(n) => self.selected_messages() matches Some(messages) && messages.len() == n,
                None => self.selected_messages() is None,
            },
    {
        match self.get_selected_chat() {
            Some(chat) => Some(self.telegram.get_messages_for_chat(chat.chat.id).len()),
            None => None,
        }
    }

    /// Selects the next kept update, going round.
    pub fn next_update(&mut self)
        ensures
            final(self).ui == old(self).ui.at_next_update(old(self).telegram.raw_updates.len()),
            final(self).telegram == old(self).telegram,
            final(self).monitoring == old(self).monitoring,
    {
        let update_count = self.telegram.raw_updates.len();
        self.ui.next_update(update_count);
    }

    /// Selects the kept update before, going round.
    pub fn previous_update(&mut self)
        ensures
            final(self).ui == old(self).ui.at_previous_update(
                old(self).telegram.raw_updates.len(),
            ),
            final(self).telegram == old(self).telegram,
            final(self).monitoring == old(self).monitoring,
    {
        let update_count = self.telegram.raw_updates.len();
        self.ui.previous_update(update_count);
    }

    /// A snapshot of the discovered chats, the one seen latest first.
    pub fn get_discovered_chats(&self) -> (chats: Vec<&DiscoveredChat>)
        ensures
            chat_views(chats@) == self.chats(),
            is_snapshot(self.chats(), self.telegram.update_processor@.registry),
    {
        self.telegram.get_discovered_chats()
    }

    /// The chat that is selected in the chat list.
    pub fn get_selected_chat(&self) -> (chat: Option<&DiscoveredChat>)
        ensures
            match chat {
                Some(c) => self.selected_chat() == Some(c@),
                None => self.selected_chat() is None,
            },
    {
        let chats = self.get_discovered_chats();
        if self.ui.selected_chat_index < chats.len() {
            let chat = chats[self.ui.selected_chat_index];
            assert(chat_views(chats@)[self.ui.selected_chat_index as int] == chat@);
            Some(chat)
        } else {
            None
        }
    }

    /// The message that is selected among those of the selected chat.
    pub fn get_selected_message_for_current_chat(&self) -> (found: Option<&Arc<Update>>)
        ensures
            match found {
                Some(update) => self.selected_messages() matches Some(messages)
                    && self.ui.selected_message_index < messages.len() && (**update)@
                    == messages[self.ui.selected_message_index as int],
                None => match self.selected_messages() {
                    Some(messages) => self.ui.selected_message_index >= messages.len(),
                    None => true,
                },
            },
    {
        let chat_id = match self.get_selected_chat() {
            Some(chat) => Some(chat.chat.id),
            None => None,
        };
        self.telegram.get_selected_message_for_chat(chat_id, self.ui.selected_message_index)
    }

    /// Changes where a test message goes.
    pub fn toggle_test_message_mode(&mut self)
        ensures
            final(self).ui == old(self).ui.with_other_mode(),
            final(self).telegram == old(self).telegram,
            final(self).monitoring == old(self).monitoring,
    {
        self.ui.toggle_test_message_mode();
    }

    /// Moves the keys to the other input field of the test message screen.
    pub fn toggle_input_focus(&mut self)
        ensures
            final(self).ui == old(self).ui.with_other_focus(),
            final(self).telegram == old(self).telegram,
            final(self).monitoring == old(self).monitoring,
    {
        self.ui.toggle_input_focus();
    }

    /// Goes one level up.
    pub fn go_back(&mut self)
        ensures
            final(self).ui == old(self).ui.gone_back(),
            final(self).telegram == old(self).telegram,
            final(self).monitoring == old(self).monitoring,
    {
        self.ui.go_back();
    }

    /// Pauses the monitor screen or ends the pause.
    pub fn toggle_monitor_pause(&mut self)
        ensures
            final(self).ui == old(self).ui.marked(),
            final(self).telegram == old(self).telegram,
            final(self).monitoring.is_paused() == !old(self).monitoring.is_paused(),
            final(self).monitoring.active() == old(self).monitoring.active(),
            final(self).monitoring.shown() == old(self).monitoring.shown(),
    {
        self.monitoring.toggle_pause();
        self.ui.mark_dirty();
    }

    /// Starts the monitor behind the last update fed, or stops it, and says
    /// so in the status message. Without a client nothing happens. The
    /// result is what remains to be done: to run the task handed out, or to
    /// stop the running one and wait for its end.
    pub fn toggle_monitoring(&mut self) -> (action: Option<ToggleAction>)
        ensures
            App::monitoring_toggled(*old(self), *final(self), action),
    {
        if self.telegram.client_token.is_some() {
            let action = self.monitoring.toggle(self.telegram.last_processed_update_id);
            let status = if self.monitoring.is_active() {
                "Monitoring started"
            } else {
                "Monitoring stopped"
            };
            self.ui.set_status(String::from_str(status));
            Some(action)
        } else {
            None
        }
    }

    /// Stops the monitor. The result tells whether there is a task to stop
    /// and to wait for.
    pub fn stop_monitoring(&mut self) -> (had_task: bool)
        ensures
            !final(self).monitoring.active(),
            had_task == old(self).monitoring.active(),
            final(self).monitoring.is_paused() == old(self).monitoring.is_paused(),
            final(self).monitoring.shown() == old(self).monitoring.shown(),
            final(self).ui == old(self).ui,
            final(self).telegram == old(self).telegram,
    {
        self.monitoring.stop()
    }

    /// Feeds the batches `queued` that were taken off the delivery channel.
    /// A stopped monitor and an empty queue change nothing. Else every
    /// batch goes to the processor, in its order; a monitor that is not
    /// paused also keeps and shows what is new, while a paused one leaves
    /// its messages and the kept updates as they were; and the screen has
    /// to be drawn again.
    pub fn process_received_updates(&mut self, queued: Vec<Vec<Update>>)
        requires
            old(self).telegram.update_processor@.has_room(total_updates(batch_views(queued@))),
        ensures
            !(old(self).monitoring.active() && queued@.len() > 0) ==> *final(self) == *old(self),
            old(self).monitoring.active() && queued@.len() > 0 ==> {
                &&& final(self).ui == old(self).ui.marked()
                &&& final(self).telegram.update_processor@ == old(self).telegram.update_processor@.after_batches(batch_views(queued@))
                &&& registry_wf(final(self).telegram.update_processor@.registry)
                &&& final(self).telegram.feed(final(self).monitoring.lines()) == if old(self).monitoring.is_paused() {
                    old(self).telegram.feed(old(self).monitoring.lines())
                } else {
                    old(self).telegram.feed(old(self).monitoring.lines()).after_batches(
                        batch_views(queued@),
                    )
                }
                &&& old(self).monitoring.is_paused() ==> {
                    &&& final(self).monitoring.shown() == old(self).monitoring.shown()
                    &&& final(self).telegram.raw_updates == old(self).telegram.raw_updates
                    &&& final(self).telegram.last_processed_update_id == old(self).telegram.last_processed_update_id
                }
                &&& final(self).telegram.client_token == old(self).telegram.client_token
                &&& final(self).telegram.raw_json_updates == old(self).telegram.raw_json_updates
                &&& final(self).monitoring.active()
                &&& final(self).monitoring.is_paused() == old(self).monitoring.is_paused()
            },
    {
        match self.monitoring.receive_updates(queued) {
            Some(batches) => {
                let ghost all = batch_views(batches@);
                let ghost start = self.telegram.update_processor@;
                let ghost feed_start = self.telegram.feed(self.monitoring.lines());
                let ghost paused = self.monitoring.is_paused();
                proof {
                    assert(all.take(0) =~= Seq::empty());
                    assert(total_updates(all.take(0)) == 0);
                }
                for updates in walk: batches
                    invariant
                        all == batch_views(walk.seq()),
                        start.has_room(total_updates(all)),
                        self.telegram.update_processor@ == start.after_batches(
                            all.take(walk.index() as int),
                        ),
                        self.telegram.update_processor@.has_room(
                            (total_updates(all) - total_updates(all.take(walk.index() as int))) as nat,
                        ),
                        total_updates(all.take(walk.index() as int)) <= total_updates(all),
                        self.telegram.feed(self.monitoring.lines()) == if paused {
                            feed_start
                        } else {
                            feed_start.after_batches(all.take(walk.index() as int))
                        },
                        paused ==> self.monitoring.shown() == old(self).monitoring.shown()
                            && self.telegram.raw_updates == old(self).telegram.raw_updates
                            && self.telegram.last_processed_update_id == old(self).telegram.last_processed_update_id,
                        self.ui == old(self).ui,
                        self.telegram.client_token == old(self).telegram.client_token,
                        self.telegram.raw_json_updates == old(self).telegram.raw_json_updates,
                        self.monitoring.active(),
                        self.monitoring.is_paused() == paused,
                        registry_wf(self.telegram.update_processor@.registry) || walk.index() == 0,
                        walk.index() == walk.seq().len() ==> all.take(walk.index() as int) == all,
                {
                    let ghost done = walk.index() as int;
                    proof {
                        assert(all.take(done + 1).drop_last() =~= all.take(done));
                        assert(all.take(done + 1).last() == crate::telegram::registry::update_views(
                            updates@,
                        ));
                        lemma_total_updates_grows(all, done + 1);
                        lemma_updates_use_room(
                            self.telegram.update_processor@,
                            crate::telegram::registry::update_views(updates@),
                            (total_updates(all) - total_updates(all.take(done + 1))) as nat,
                        );
                        assert(all.take(all.len() as int) =~= all);
                    }
                    self.monitoring.feed(&mut self.telegram, updates);
                }
                self.ui.mark_dirty();
            },
            None => {},
        }
    }

    /// The token typed in, checked before the API is asked about it.
    pub fn begin_token_validation(&self) -> (outcome: Result<String, TokenValidationResult>)
        ensures
            match outcome {
                Ok(token) => token@ == trimmed(self.ui.token_input@) && token@.len() > 0
                    && byte_len(token@) <= MAX_TOKEN_LENGTH,
                Err(TokenValidationResult::Empty) => trimmed(self.ui.token_input@).len() == 0,
                Err(TokenValidationResult::TooLong(limit)) => trimmed(self.ui.token_input@).len()
                    > 0 && byte_len(trimmed(self.ui.token_input@)) > MAX_TOKEN_LENGTH && limit
                    == MAX_TOKEN_LENGTH,
                Err(_) => false,
            },
    {
        check_token(self.ui.token_input.as_str())
    }

    /// Shows what came of the validation of a token. A valid token leads to
    /// the home screen, with a status message; anything else is said under
    /// the token input.
    pub fn finish_token_validation(&mut self, result: TokenValidationResult)
        ensures
            final(self).telegram == old(self).telegram,
            final(self).monitoring == old(self).monitoring,
            match result {
                TokenValidationResult::Valid(_) => final(self).ui == (UiState {
                    token_error: None,
                    status_message: final(self).ui.status_message,
                    ..old(self).ui.switched(Screen::Home)
                }) && (final(self).ui.status_message matches Some(status) && status@
                    == "Token validated successfully!"@),
                TokenValidationResult::Empty => final(self).ui == (UiState {
                    token_error: final(self).ui.token_error,
                    needs_render: true,
                    ..old(self).ui
                }) && (final(self).ui.token_error matches Some(why) && why@
                    == "Token cannot be empty"@),
                TokenValidationResult::TooLong(limit) => final(self).ui == (UiState {
                    token_error: final(self).ui.token_error,
                    needs_render: true,
                    ..old(self).ui
                }) && (final(self).ui.token_error matches Some(why) && why@
                    == "Token too long (max "@ + decimal_digits(limit as nat)
                    + " characters)"@),
                TokenValidationResult::Invalid(message) => final(self).ui == (UiState {
                    token_error: Some(message),
                    needs_render: true,
                    ..old(self).ui
                }),
            },
    {
        match result {
            TokenValidationResult::Valid(_) => {
                self.ui.token_error = None;
                self.ui.switch_screen(Screen::Home);
                self.ui.set_status(String::from_str("Token validated successfully!"));
            },
            TokenValidationResult::Empty => {
                self.ui.token_error = Some(String::from_str("Token cannot be empty"));
                self.ui.mark_dirty();
            },
            TokenValidationResult::TooLong(limit) => {
                let mut why = String::from_str("Token too long (max ");
                append_digits(&mut why, limit as u64);
                why.append(" characters)");
                self.ui.token_error = Some(why);
                self.ui.mark_dirty();
            },
            TokenValidationResult::Invalid(message) => {
                self.ui.token_error = Some(message);
                self.ui.mark_dirty();
            },
        }
    }

    /// The test message typed in, checked before it is sent.
    pub fn begin_test_message(&self) -> (outcome: Result<TestMessage, SendMessageResult>)
        ensures
            match outcome {
                Ok(message) => super::telegram_manager::test_message_outcome(
                    self.telegram.client_token is Some,
                    self.ui.test_message_input@,
                    self.ui.manual_chat_id_input@,
                    self.ui.test_message_mode,
                    match self.selected_chat() {
                        Some(chat) => Some(chat.chat.id),
                        None => None,
                    },
                ) == Ok::<(i64, Seq<char>), Seq<char>>((message.chat_id, message.text@)),
                Err(result) => !result.success && super::telegram_manager::test_message_outcome(
                    self.telegram.client_token is Some,
                    self.ui.test_message_input@,
                    self.ui.manual_chat_id_input@,
                    self.ui.test_message_mode,
                    match self.selected_chat() {
                        Some(chat) => Some(chat.chat.id),
                        None => None,
                    },
                ) == Err::<(i64, Seq<char>), Seq<char>>(result.message@),
            },
    {
        self.telegram.prepare_test_message(
            self.ui.test_message_input.as_str(),
            self.ui.manual_chat_id_input.as_str(),
            self.ui.test_message_mode,
            self.get_selected_chat(),
        )
    }

    /// Shows what came of a test message. After a success the message
    /// input is empty again.
    pub fn finish_test_message(&mut self, result: SendMessageResult)
        ensures
            final(self).telegram == old(self).telegram,
            final(self).monitoring == old(self).monitoring,
            final(self).ui == (UiState {
                test_message_result: Some(result.message),
                test_message_input: final(self).ui.test_message_input,
                needs_render: true,
                ..old(self).ui
            }),
            result.success ==> final(self).ui.test_message_input@.len() == 0,
            !result.success ==> final(self).ui.test_message_input == old(self).ui.test_message_input,
    {
        self.ui.test_message_result = Some(result.message);
        if result.success {
            self.ui.test_message_input = String::new();
        }
        self.ui.mark_dirty();
    }
}

} // verus!
