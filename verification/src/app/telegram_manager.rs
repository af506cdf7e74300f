//! What the application holds of the bot: its token, the processor, the
//! last updates as they came, and the checks on what the user types before
//! any of it is sent.

use super::monitoring::MonitorMessage;
use super::state::TestMessageMode;
use crate::telegram::registry::{registry_wf, update_views};
use crate::telegram::types::{
    chat_views, clone_text, DiscoveredChat, Update, UpdateView,
};
use crate::telegram::updates::{is_snapshot, snapshot_of, UpdateProcessor};
use crate::text::{byte_len, parse_i64, parsed_i64, trim, trimmed};
use crate::time::now_timestamp;
use std::sync::Arc;
use vstd::prelude::*;
use vstd::string::*;

verus! {

/// The longest token that is tried, in bytes.
pub const MAX_TOKEN_LENGTH: usize = 256;

/// The longest chat id that is read, in bytes.
pub const MAX_CHAT_ID_LENGTH: usize = 20;

/// The longest message that is sent, in bytes.
pub const MAX_MESSAGE_LENGTH: usize = 4096;

/// How many of the last updates are kept as they came.
pub const RAW_UPDATES_KEPT: usize = 50;

/// How many messages the monitor screen keeps.
pub const MONITOR_MESSAGES_KEPT: usize = 100;

/// What came of the validation of a token.
#[derive(Debug)]
pub enum TokenValidationResult {
    /// The API knows the token; it is now the manager's.
    Valid(String),
    Empty,
    /// Longer than this many bytes.
    TooLong(usize),
    Invalid(String),
}

/// What came of sending a test message, with the line to show.
#[derive(Debug)]
pub struct SendMessageResult {
    pub success: bool,
    pub message: String,
}

/// A test message that passed the checks.
#[derive(Debug)]
pub struct TestMessage {
    pub chat_id: i64,
    pub text: String,
}

/// What the monitor screen shows of a message, but for the time it came at.
pub struct MonitorLine {
    pub chat_name: Seq<char>,
    pub sender: Option<Seq<char>>,
    pub text: Seq<char>,
}

/// The text shown for a message: its own, or a note that it has none.
pub open spec fn shown_text(text: Option<Seq<char>>) -> Seq<char> {
    match text {
        Some(t) => t,
        None => "[No text]"@,
    }
}

/// What the monitor screen shows of an update: of a message its chat, its
/// sender and its text; of a channel post its chat and its text; of
/// anything else nothing.
pub open spec fn monitor_line(update: UpdateView) -> Option<MonitorLine> {
    match update.message {
        Some(m) => Some(
            MonitorLine {
                chat_name: m.chat.display_name(),
                sender: match m.from {
                    Some(user) => Some(user.sender_name()),
                    None => None,
                },
                text: shown_text(m.text),
            },
        ),
        None => match update.channel_post {
            Some(p) => Some(
                MonitorLine {
                    chat_name: p.chat.display_name(),
                    sender: None,
                    text: shown_text(p.text),
                },
            ),
            None => None,
        },
    }
}

/// What a monitor message shows.
pub open spec fn line_of(message: MonitorMessage) -> MonitorLine {
    MonitorLine {
        chat_name: message.chat_name@,
        sender: match message.sender {
            Some(s) => Some(s@),
            None => None,
        },
        text: message.text@,
    }
}

/// What a list of monitor messages shows, in their order.
pub open spec fn lines_of(messages: Seq<MonitorMessage>) -> Seq<MonitorLine> {
    Seq::new(messages.len(), |i: int| line_of(messages[i]))
}

/// The views of the kept updates, in their order.
pub open spec fn raw_views(updates: Seq<Arc<Update>>) -> Seq<UpdateView> {
    Seq::new(updates.len(), |i: int| (*updates[i])@)
}

/// The views of a selection of the kept updates, in their order.
pub open spec fn picked_views(updates: Seq<&Arc<Update>>) -> Seq<UpdateView> {
    Seq::new(updates.len(), |i: int| (**updates[i])@)
}

/// `items` with `item` at the end, and without its first item if that made
/// it longer than `limit`.
pub open spec fn pushed_within<A>(items: Seq<A>, item: A, limit: nat) -> Seq<A> {
    if items.len() + 1 > limit {
        items.push(item).remove(0)
    } else {
        items.push(item)
    }
}

/// What the application shows of the updates it was fed: the highest id
/// fed, the last updates as they came, and the lines of the monitor
/// screen.
pub struct FeedView {
    pub last_id: int,
    pub raw: Seq<UpdateView>,
    pub lines: Seq<MonitorLine>,
}

impl FeedView {
    /// The feed after one update. Only an update with an id above all
    /// before it is new: it is kept as it came, among the last
    /// [`RAW_UPDATES_KEPT`], and its line, if it has one, joins the last
    /// [`MONITOR_MESSAGES_KEPT`] of the monitor screen.
    pub open spec fn after_update(self, update: UpdateView) -> FeedView {
        if update.update_id > self.last_id {
            FeedView {
                last_id: update.update_id,
                raw: pushed_within(self.raw, update, RAW_UPDATES_KEPT as nat),
                lines: match monitor_line(update) {
                    Some(line) => pushed_within(self.lines, line, MONITOR_MESSAGES_KEPT as nat),
                    None => self.lines,
                },
            }
        } else {
            self
        }
    }

    /// The feed after several batches, one after the other.
    pub open spec fn after_batches(self, batches: Seq<Seq<UpdateView>>) -> FeedView
        decreases batches.len(),
    {
        if batches.len() == 0 {
            self
        } else {
            self.after_batches(batches.drop_last()).after_updates(batches.last())
        }
    }

    /// The feed after a batch of updates, in their order.
    pub open spec fn after_updates(self, updates: Seq<UpdateView>) -> FeedView
        decreases updates.len(),
    {
        if updates.len() == 0 {
            self
        } else {
            self.after_updates(updates.drop_last()).after_update(updates.last())
        }
    }
}

/// A feed within its limits stays within them, and the highest id fed
/// never falls.
pub proof fn law_feed_stays_within_limits(feed: FeedView, updates: Seq<UpdateView>)
    requires
        feed.raw.len() <= RAW_UPDATES_KEPT,
        feed.lines.len() <= MONITOR_MESSAGES_KEPT,
    ensures
        feed.after_updates(updates).raw.len() <= RAW_UPDATES_KEPT,
        feed.after_updates(updates).lines.len() <= MONITOR_MESSAGES_KEPT,
        feed.after_updates(updates).last_id >= feed.last_id,
        forall|i: int|
            0 <= i < updates.len() ==> (#[trigger] updates[i]).update_id <= feed.after_updates(
                updates,
            ).last_id,
    decreases updates.len(),
{
    if updates.len() > 0 {
        let front = updates.drop_last();
        law_feed_stays_within_limits(feed, front);
        assert forall|i: int| 0 <= i < updates.len() implies (#[trigger] updates[i]).update_id
            <= feed.after_updates(updates).last_id by {
            if i < front.len() {
                assert(front[i] == updates[i]);
            }
        }
    }
}

/// Whether an update is a message or channel post of the chat `chat_id`.
/// An update with a message is judged by the message alone.
pub open spec fn is_of_chat(update: UpdateView, chat_id: i64) -> bool {
    match update.message {
        Some(m) => m.chat.id == chat_id,
        None => match update.channel_post {
            Some(p) => p.chat.id == chat_id,
            None => false,
        },
    }
}

/// The messages and channel posts of the chat `chat_id` among `updates`,
/// in their order.
pub open spec fn messages_of_chat(updates: Seq<UpdateView>, chat_id: i64) -> Seq<UpdateView>
    decreases updates.len(),
{
    if updates.len() == 0 {
        Seq::empty()
    } else if is_of_chat(updates.last(), chat_id) {
        messages_of_chat(updates.drop_last(), chat_id).push(updates.last())
    } else {
        messages_of_chat(updates.drop_last(), chat_id)
    }
}

/// What the checks make of a test message: the chat and the text to send,
/// or the line that says what is wrong. The text is the input without the
/// white space around it. The checks come in this order: a client, a text
/// that is not empty, a text of at most [`MAX_MESSAGE_LENGTH`] bytes, and
/// then the chat: the selected one, or the id typed in, which must not be
/// empty, is at most [`MAX_CHAT_ID_LENGTH`] bytes long and stands for an
/// integer.
pub open spec fn test_message_outcome(
    has_client: bool,
    message_input: Seq<char>,
    chat_id_input: Seq<char>,
    mode: TestMessageMode,
    selected: Option<i64>,
) -> Result<(i64, Seq<char>), Seq<char>> {
    let text = trimmed(message_input);
    let id_text = trimmed(chat_id_input);
    if !has_client {
        Err("✗ Error: No client available"@)
    } else if text.len() == 0 {
        Err("✗ Error: Message cannot be empty"@)
    } else if byte_len(text) > MAX_MESSAGE_LENGTH {
        Err("✗ Error: Message too long (max 4096 characters)"@)
    } else {
        match mode {
            TestMessageMode::SelectedChat => match selected {
                Some(id) => Ok((id, text)),
                None => Err("✗ Error: No chat selected"@),
            },
            TestMessageMode::ManualChatId => if id_text.len() == 0 {
                Err("✗ Error: Chat ID cannot be empty"@)
            } else if byte_len(id_text) > MAX_CHAT_ID_LENGTH {
                Err("✗ Error: Chat ID too long (max 20 chars)"@)
            } else {
                match parsed_i64(id_text) {
                    Some(id) => Ok((id, text)),
                    None => Err("✗ Error: Invalid chat ID format (must be a number)"@),
                }
            },
        }
    }
}

/// The line shown after the API answered a test message.
pub open spec fn send_outcome(ok: bool, description: Option<Seq<char>>) -> Seq<char> {
    if ok {
        "✓ Message sent successfully!"@
    } else {
        "✗ Error: "@ + match description {
            Some(d) => d,
            None => "Unknown error"@,
        }
    }
}

/// Checks the token a user typed, before the API is asked: the token is
/// the input without the white space around it; it must not be empty nor
/// longer than [`MAX_TOKEN_LENGTH`] bytes.
pub fn check_token(token_input: &str) -> (outcome: Result<String, TokenValidationResult>)
    ensures
        match outcome {
            Ok(token) => token@ == trimmed(token_input@) && token@.len() > 0 && byte_len(token@)
                <= MAX_TOKEN_LENGTH,
            Err(TokenValidationResult::Empty) => trimmed(token_input@).len() == 0,
            Err(TokenValidationResult::TooLong(limit)) => trimmed(token_input@).len() > 0
                && byte_len(trimmed(token_input@)) > MAX_TOKEN_LENGTH && limit
                == MAX_TOKEN_LENGTH,
            Err(_) => false,
        },
{
    let token = trim(token_input);
    if token.is_empty() {
        return Err(TokenValidationResult::Empty);
    }
    if token.len() > MAX_TOKEN_LENGTH {
        return Err(TokenValidationResult::TooLong(MAX_TOKEN_LENGTH));
    }
    Ok(token.to_owned())
}

/// The line shown after the API answered a test message: success, or the
/// API's description of the error behind `✗ Error: `.
pub fn conclude_send(ok: bool, description: Option<String>) -> (result: SendMessageResult)
    ensures
        result.success == ok,
        result.message@ == send_outcome(
            ok,
            match description {
                Some(d) => Some(d@),
                None => None,
            },
        ),
{
    if ok {
        SendMessageResult { success: true, message: String::from_str("✓ Message sent successfully!") }
    } else {
        let mut message = String::from_str("✗ Error: ");
        match description {
            Some(d) => message.append(d.as_str()),
            None => message.append("Unknown error"),
        }
        SendMessageResult { success: false, message }
    }
}

/// What the monitor screen shows of `update`, stamped with the time `now`.
pub fn monitor_message_of(update: &Update, now: i64) -> (message: Option<MonitorMessage>)
    ensures
        match message {
            Some(m) => monitor_line(update@) == Some(line_of(m)) && m.timestamp == now,
            None => monitor_line(update@) is None,
        },
{
    match &update.message {
        Some(message) => {
            let sender = match &message.from {
                Some(user) => match &user.username {
                    Some(handle) => Some(handle.clone()),
                    None => Some(user.first_name.clone()),
                },
                None => None,
            };
            let text = match &message.text {
                Some(text) => text.clone(),
                None => String::from_str("[No text]"),
            };
            Some(
                MonitorMessage {
                    timestamp: now,
                    chat_name: message.chat.display_name(),
                    sender,
                    text,
                },
            )
        },
        None => match &update.channel_post {
            Some(post) => {
                let text = match &post.text {
                    Some(text) => text.clone(),
                    None => String::from_str("[No text]"),
                };
                Some(
                    MonitorMessage {
                        timestamp: now,
                        chat_name: post.chat.display_name(),
                        sender: None,
                        text,
                    },
                )
            },
            None => None,
        },
    }
}

/// Whether `update` is a message or channel post of the chat `chat_id`.
fn belongs_to_chat(update: &Update, chat_id: i64) -> (belongs: bool)
    ensures
        belongs == is_of_chat(update@, chat_id),
{
    match &update.message {
        Some(message) => message.chat.id == chat_id,
        None => match &update.channel_post {
            Some(post) => post.chat.id == chat_id,
            None => false,
        },
    }
}

/// The bot as the application holds it.
pub struct TelegramManager {
    /// The token of the API client, where there is a client.
    pub client_token: Option<String>,
    pub update_processor: UpdateProcessor,
    /// The last updates as they came, the oldest first.
    pub raw_updates: Vec<Arc<Update>>,
    /// The last answers of the API as JSON.
    pub raw_json_updates: Vec<serde_json::Value>,
    /// The highest id among the updates fed so far; 0 at the start.
    pub last_processed_update_id: i64,
}

impl TelegramManager {
    /// What this manager shows of the updates it was fed, beside the lines
    /// `lines` of the monitor screen.
    pub open spec fn feed(&self, lines: Seq<MonitorLine>) -> FeedView {
        FeedView {
            last_id: self.last_processed_update_id as int,
            raw: raw_views(self.raw_updates@),
            lines,
        }
    }

    /// A manager without a client, that has seen nothing.
    pub fn new() -> (manager: Self)
        ensures
            manager.client_token is None,
            manager.update_processor@ == crate::telegram::registry::ProcessorView::initial(),
            manager.raw_updates@.len() == 0,
            manager.raw_json_updates@.len() == 0,
            manager.last_processed_update_id == 0,
    {
        TelegramManager {
            client_token: None,
            update_processor: UpdateProcessor::new(),
            raw_updates: Vec::new(),
            raw_json_updates: Vec::new(),
            last_processed_update_id: 0,
        }
    }

    /// A manager with a client for `token`, that has seen nothing.
    pub fn new_with_token(token: String) -> (manager: Self)
        ensures
            manager.client_token == Some(token),
            manager.update_processor@ == crate::telegram::registry::ProcessorView::initial(),
            manager.raw_updates@.len() == 0,
            manager.raw_json_updates@.len() == 0,
            manager.last_processed_update_id == 0,
    {
        TelegramManager {
            client_token: Some(token),
            update_processor: UpdateProcessor::new(),
            raw_updates: Vec::new(),
            raw_json_updates: Vec::new(),
            last_processed_update_id: 0,
        }
    }

    /// Takes in what the API answered when asked about `token`: `Ok(true)`
    /// if it knows the token, `Ok(false)` if not, and the error's words if
    /// it could not be asked. Only a token that the API knows becomes the
    /// manager's.
    pub fn conclude_validation(&mut self, token: String, answer: Result<bool, String>) -> (result:
        TokenValidationResult)
        ensures
            match answer {
                Ok(true) => result == TokenValidationResult::Valid(token) && final(self).client_token == Some(token),
                Ok(false) => (result matches TokenValidationResult::Invalid(why) && why@
                    == "Invalid token"@) && final(self).client_token == old(self).client_token,
                Err(error) => (result matches TokenValidationResult::Invalid(why) && why@
                    == "Error: "@ + error@) && final(self).client_token == old(self).client_token,
            },
            final(self).update_processor == old(self).update_processor,
            final(self).raw_updates == old(self).raw_updates,
            final(self).raw_json_updates == old(self).raw_json_updates,
            final(self).last_processed_update_id == old(self).last_processed_update_id,
    {
        match answer {
            Ok(known) => {
                if known {
                    self.client_token = Some(token.clone());
                    TokenValidationResult::Valid(token)
                } else {
                    TokenValidationResult::Invalid(String::from_str("Invalid token"))
                }
            },
            Err(error) => {
                let mut why = String::from_str("Error: ");
                why.append(error.as_str());
                TokenValidationResult::Invalid(why)
            },
        }
    }

    /// Checks a test message before it is sent: see
    /// [`test_message_outcome`].
    pub fn prepare_test_message(
        &self,
        message_input: &str,
        chat_id_input: &str,
        mode: TestMessageMode,
        selected_chat: Option<&DiscoveredChat>,
    ) -> (outcome: Result<TestMessage, SendMessageResult>)
        ensures
            match outcome {
                Ok(message) => test_message_outcome(
                    self.client_token is Some,
                    message_input@,
                    chat_id_input@,
                    mode,
                    match selected_chat {
                        Some(chat) => Some(chat.chat.id),
                        None => None,
                    },
                ) == Ok::<(i64, Seq<char>), Seq<char>>((message.chat_id, message.text@)),
                Err(result) => !result.success && test_message_outcome(
                    self.client_token is Some,
                    message_input@,
                    chat_id_input@,
                    mode,
                    match selected_chat {
                        Some(chat) => Some(chat.chat.id),
                        None => None,
                    },
                ) == Err::<(i64, Seq<char>), Seq<char>>(result.message@),
            },
    {
        if self.client_token.is_none() {
            return Err(refusal("✗ Error: No client available"));
        }
        let text = trim(message_input);
        if text.is_empty() {
            return Err(refusal("✗ Error: Message cannot be empty"));
        }
        if text.len() > MAX_MESSAGE_LENGTH {
            return Err(refusal("✗ Error: Message too long (max 4096 characters)"));
        }
        let chat_id: i64 = match mode {
            TestMessageMode::SelectedChat => match selected_chat {
                Some(chat) => chat.chat.id,
                None => {
                    return Err(refusal("✗ Error: No chat selected"));
                },
            },
            TestMessageMode::ManualChatId => {
                let id_text = trim(chat_id_input);
                if id_text.is_empty() {
                    return Err(refusal("✗ Error: Chat ID cannot be empty"));
                }
                if id_text.len() > MAX_CHAT_ID_LENGTH {
                    return Err(refusal("✗ Error: Chat ID too long (max 20 chars)"));
                }
                match parse_i64(id_text) {
                    Some(id) => id,
                    None => {
                        return Err(
                            refusal("✗ Error: Invalid chat ID format (must be a number)"),
                        );
                    },
                }
            },
        };
        Ok(TestMessage { chat_id, text: text.to_owned() })
    }

    /// A snapshot of the discovered chats, the one seen latest first.
    pub fn get_discovered_chats(&self) -> (chats: Vec<&DiscoveredChat>)
        ensures
            is_snapshot(chat_views(chats@), self.update_processor@.registry),
            chat_views(chats@) == snapshot_of(self.update_processor@.registry),
            registry_wf(self.update_processor@.registry),
    {
        self.update_processor.get_discovered_chats()
    }

    /// The messages and channel posts of the chat `chat_id` among the kept
    /// updates, the oldest first.
    pub fn get_messages_for_chat(&self, chat_id: i64) -> (messages: Vec<&Arc<Update>>)
        ensures
            picked_views(messages@) == messages_of_chat(raw_views(self.raw_updates@), chat_id),
    {
        let ghost raw = raw_views(self.raw_updates@);
        let mut messages: Vec<&Arc<Update>> = Vec::new();
        let mut i: usize = 0;
        assert(raw.take(0) =~= Seq::empty());
        assert(picked_views(messages@) =~= Seq::empty());
        while i < self.raw_updates.len()
            invariant
                i <= self.raw_updates.len(),
                raw == raw_views(self.raw_updates@),
                picked_views(messages@) == messages_of_chat(raw.take(i as int), chat_id),
            decreases self.raw_updates.len() - i,
        {
            let ghost before = picked_views(messages@);
            proof {
                assert(raw.take(i + 1).drop_last() =~= raw.take(i as int));
                assert(raw.take(i + 1).last() == (*self.raw_updates[i as int])@);
            }
            if belongs_to_chat(&self.raw_updates[i], chat_id) {
                messages.push(&self.raw_updates[i]);
                assert(picked_views(messages@) =~= before.push((*self.raw_updates[i as int])@));
            }
            i += 1;
        }
        assert(raw.take(self.raw_updates.len() as int) =~= raw);
        messages
    }

    /// The message at position `message_index` among those of the chat
    /// `chat_id`; nothing without a chat or behind the last message.
    pub fn get_selected_message_for_chat(&self, chat_id: Option<i64>, message_index: usize) -> (found:
        Option<&Arc<Update>>)
        ensures
            match chat_id {
                Some(id) => match found {
                    Some(update) => message_index < messages_of_chat(
                        raw_views(self.raw_updates@),
                        id,
                    ).len() && (**update)@ == messages_of_chat(
                        raw_views(self.raw_updates@),
                        id,
                    )[message_index as int],
                    None => message_index >= messages_of_chat(
                        raw_views(self.raw_updates@),
                        id,
                    ).len(),
                },
                None => found is None,
            },
    {
        match chat_id {
            Some(id) => {
                let messages = self.get_messages_for_chat(id);
                if message_index < messages.len() {
                    assert(picked_views(messages@)[message_index as int] == (
                    **messages[message_index as int])@);
                    Some(messages[message_index])
                } else {
                    None
                }
            },
            None => None,
        }
    }

    /// The kept update at position `index`; nothing behind the last.
    pub fn get_selected_update(&self, index: usize) -> (found: Option<&Arc<Update>>)
        ensures
            index < self.raw_updates@.len() ==> found == Some(&self.raw_updates@[index as int]),
            index >= self.raw_updates@.len() ==> found is None,
    {
        if index < self.raw_updates.len() {
            Some(&self.raw_updates[index])
        } else {
            None
        }
    }

    /// Feeds a batch of updates: each update that is new is kept as it
    /// came and shown on the monitor screen, stamped with the time it is
    /// fed at, and the whole batch goes to the processor.
    pub fn process_updates_batch(
        &mut self,
        updates: Vec<Update>,
        monitor_messages: &mut Vec<MonitorMessage>,
    )
        requires
            old(self).update_processor@.has_room(updates@.len()),
        ensures
            final(self).feed(lines_of(final(monitor_messages)@)) == old(self).feed(
                lines_of(old(monitor_messages)@),
            ).after_updates(update_views(updates@)),
            final(self).update_processor@ == old(self).update_processor@.after_updates(
                update_views(updates@),
            ),
            registry_wf(final(self).update_processor@.registry),
            final(self).client_token == old(self).client_token,
            final(self).raw_json_updates == old(self).raw_json_updates,
    {
        let ghost views = update_views(updates@);
        let ghost start = self.feed(lines_of(monitor_messages@));
        let mut i: usize = 0;
        assert(views.take(0) =~= Seq::empty());
        while i < updates.len()
            invariant
                i <= updates.len(),
                views == update_views(updates@),
                self.feed(lines_of(monitor_messages@)) == start.after_updates(views.take(i as int)),
                self.update_processor == old(self).update_processor,
                self.client_token == old(self).client_token,
                self.raw_json_updates == old(self).raw_json_updates,
            decreases updates.len() - i,
        {
            proof {
                assert(views.take(i + 1).drop_last() =~= views.take(i as int));
                assert(views.take(i + 1).last() == updates[i as int]@);
            }
            if updates[i].update_id > self.last_processed_update_id {
                self.last_processed_update_id = updates[i].update_id;
                let ghost raw_before = raw_views(self.raw_updates@);
                self.raw_updates.push(Arc::new(updates[i].clone()));
                assert(raw_views(self.raw_updates@) =~= raw_before.push(updates[i as int]@));
                if self.raw_updates.len() > RAW_UPDATES_KEPT {
                    let ghost raw_full = raw_views(self.raw_updates@);
                    self.raw_updates.remove(0);
                    assert(raw_views(self.raw_updates@) =~= raw_full.remove(0));
                }
                extract_monitor_message(&updates[i], monitor_messages);
            }
            i += 1;
        }
        assert(views.take(updates.len() as int) =~= views);
        self.update_processor.process_updates(updates);
    }
}

impl Default for TelegramManager {
    fn default() -> (manager: Self)
        ensures
            manager.client_token is None,
            manager.update_processor@ == crate::telegram::registry::ProcessorView::initial(),
            manager.raw_updates@.len() == 0,
            manager.raw_json_updates@.len() == 0,
            manager.last_processed_update_id == 0,
    {
        TelegramManager::new()
    }
}

/// The result that refuses a test message with the line `why`.
fn refusal(why: &str) -> (result: SendMessageResult)
    ensures
        !result.success,
        result.message@ == why@,
{
    SendMessageResult { success: false, message: String::from_str(why) }
}

/// Shows `update` on the monitor screen, if there is anything to show of
/// it, stamped with the time by the machine's clock.
pub fn extract_monitor_message(update: &Update, monitor_messages: &mut Vec<MonitorMessage>)
    ensures
        lines_of(final(monitor_messages)@) == match monitor_line(update@) {
            Some(line) => pushed_within(
                lines_of(old(monitor_messages)@),
                line,
                MONITOR_MESSAGES_KEPT as nat,
            ),
            None => lines_of(old(monitor_messages)@),
        },
{
    let ghost before = lines_of(monitor_messages@);
    match monitor_message_of(update, now_timestamp()) {
        Some(message) => {
            let ghost line = line_of(message);
            monitor_messages.push(message);
            assert(lines_of(monitor_messages@) =~= before.push(line));
            if monitor_messages.len() > MONITOR_MESSAGES_KEPT {
                let ghost full = lines_of(monitor_messages@);
                monitor_messages.remove(0);
                assert(lines_of(monitor_messages@) =~= full.remove(0));
            }
        },
        None => {},
    }
}

} // verus!
