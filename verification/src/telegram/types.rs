//! Telegram Bot API objects and their mathematical views.

use crate::text::{append_decimal, decimal};
use vstd::prelude::*;
use vstd::string::*;

verus! {

/// A JSON value as `serde_json` holds it. The library carries such values
/// through unread.
#[verifier::external_type_specification]
#[verifier::external_body]
pub struct ExJsonValue(serde_json::Value);

/// The characters of an optional string.
pub open spec fn text_of(s: Option<String>) -> Option<Seq<char>> {
    match s {
        Some(t) => Some(t@),
        None => None,
    }
}

/// A copy of an optional string.
pub fn clone_text(s: &Option<String>) -> (copy: Option<String>)
    ensures
        copy == *s,
{
    match s {
        Some(t) => Some(t.clone()),
        None => None,
    }
}

/// `serde_json::Value::clone` returns a value equal to the one it was given
/// (the impl is derived).
pub assume_specification[ <serde_json::Value as Clone>::clone ](
    value: &serde_json::Value,
) -> (copy: serde_json::Value)
    ensures
        copy == *value,
;

/// A copy of a list of named JSON values.
pub fn clone_fields(fields: &Vec<(String, serde_json::Value)>) -> (copy: Vec<
    (String, serde_json::Value),
>)
    ensures
        copy@ == fields@,
{
    let mut copy: Vec<(String, serde_json::Value)> = Vec::new();
    let mut i: usize = 0;
    while i < fields.len()
        invariant
            i <= fields.len(),
            copy@ == fields@.subrange(0, i as int),
        decreases fields.len() - i,
    {
        copy.push((fields[i].0.clone(), fields[i].1.clone()));
        assert(copy@ =~= fields@.subrange(0, i + 1));
        i += 1;
    }
    assert(fields@.subrange(0, fields.len() as int) =~= fields@);
    copy
}

/// A Telegram user or bot.
#[derive(Debug)]
pub struct User {
    pub id: i64,
    pub is_bot: bool,
    pub first_name: String,
    pub last_name: Option<String>,
    pub username: Option<String>,
}

/// What a [`User`] says, as plain values.
pub struct UserView {
    pub id: i64,
    pub is_bot: bool,
    pub first_name: Seq<char>,
    pub last_name: Option<Seq<char>>,
    pub username: Option<Seq<char>>,
}

impl View for User {
    type V = UserView;

    open spec fn view(&self) -> UserView {
        UserView {
            id: self.id,
            is_bot: self.is_bot,
            first_name: self.first_name@,
            last_name: text_of(self.last_name),
            username: text_of(self.username),
        }
    }
}

impl Clone for User {
    fn clone(&self) -> (copy: Self)
        ensures
            copy == *self,
    {
        User {
            id: self.id,
            is_bot: self.is_bot,
            first_name: self.first_name.clone(),
            last_name: clone_text(&self.last_name),
            username: clone_text(&self.username),
        }
    }
}

impl UserView {
    /// The name a message of this user is shown under: the handle where
    /// there is one, else the first name.
    pub open spec fn sender_name(self) -> Seq<char> {
        match self.username {
            Some(handle) => handle,
            None => self.first_name,
        }
    }
}

/// A conversation: a private chat, a group, a supergroup or a channel.
/// Groups and channels have negative ids.
#[derive(Debug)]
pub struct Chat {
    pub id: i64,
    pub chat_type: String,
    pub title: Option<String>,
    pub username: Option<String>,
    pub first_name: Option<String>,
    pub last_name: Option<String>,
}

/// What a [`Chat`] says, as plain values.
pub struct ChatView {
    pub id: i64,
    pub chat_type: Seq<char>,
    pub title: Option<Seq<char>>,
    pub username: Option<Seq<char>>,
    pub first_name: Option<Seq<char>>,
    pub last_name: Option<Seq<char>>,
}

impl View for Chat {
    type V = ChatView;

    open spec fn view(&self) -> ChatView {
        ChatView {
            id: self.id,
            chat_type: self.chat_type@,
            title: text_of(self.title),
            username: text_of(self.username),
            first_name: text_of(self.first_name),
            last_name: text_of(self.last_name),
        }
    }
}

impl ChatView {
    /// The name a chat is shown under. The title comes first; then the
    /// handle behind an `@`; then the first name, followed by a space and
    /// the last name where there is one; and last `Chat ` with the id in
    /// decimal.
    pub open spec fn display_name(self) -> Seq<char> {
        match self.title {
            Some(title) => title,
            None => match self.username {
                Some(handle) => seq!['@'] + handle,
                None => match self.first_name {
                    Some(first) => match self.last_name {
                        Some(last) => first + seq![' '] + last,
                        None => first,
                    },
                    None => seq!['C', 'h', 'a', 't', ' '] + decimal(self.id as int),
                },
            },
        }
    }
}

impl Clone for Chat {
    fn clone(&self) -> (copy: Self)
        ensures
            copy == *self,
    {
        Chat {
            id: self.id,
            chat_type: self.chat_type.clone(),
            title: clone_text(&self.title),
            username: clone_text(&self.username),
            first_name: clone_text(&self.first_name),
            last_name: clone_text(&self.last_name),
        }
    }
}

impl Chat {
    /// The name this chat is shown under.
    pub fn display_name(&self) -> (name: String)
        ensures
            name@ == self@.display_name(),
    {
        match &self.title {
            Some(title) => title.clone(),
            None => match &self.username {
                Some(handle) => {
                    proof {
                        reveal_strlit("@");
                    }
                    let mut name = String::from_str("@");
                    name.append(handle.as_str());
                    assert(name@ =~= seq!['@'] + handle@);
                    name
                },
                None => match &self.first_name {
                    Some(first) => match &self.last_name {
                        Some(last) => {
                            proof {
                                reveal_strlit(" ");
                            }
                            let mut name = first.clone();
                            name.append(" ");
                            name.append(last.as_str());
                            assert(name@ =~= first@ + seq![' '] + last@);
                            name
                        },
                        None => first.clone(),
                    },
                    None => {
                        proof {
                            reveal_strlit("Chat ");
                        }
                        let mut name = String::from_str("Chat ");
                        assert(name@ =~= seq!['C', 'h', 'a', 't', ' ']);
                        append_decimal(&mut name, self.id);
                        name
                    },
                },
            },
        }
    }
}

/// A message in a chat.
#[derive(Debug)]
pub struct Message {
    pub message_id: i64,
    pub from: Option<User>,
    pub chat: Chat,
    pub date: i64,
    pub text: Option<String>,
    pub message_thread_id: Option<i64>,
    pub reply_to_message: Option<Box<Message>>,
    /// The fields of the API object that have no field here, by name.
    pub other: Vec<(String, serde_json::Value)>,
}

/// What the library reads of a [`Message`].
pub struct MessageView {
    pub message_id: i64,
    pub from: Option<UserView>,
    pub chat: ChatView,
    pub date: int,
    pub text: Option<Seq<char>>,
    pub message_thread_id: Option<i64>,
}

impl View for Message {
    type V = MessageView;

    open spec fn view(&self) -> MessageView {
        MessageView {
            message_id: self.message_id,
            from: match self.from {
                Some(user) => Some(user@),
                None => None,
            },
            chat: self.chat@,
            date: self.date as int,
            text: text_of(self.text),
            message_thread_id: self.message_thread_id,
        }
    }
}

impl Clone for Message {
    fn clone(&self) -> (copy: Self)
        ensures
            copy@ == self@,
            copy.other@ == self.other@,
        decreases self,
    {
        Message {
            message_id: self.message_id,
            from: match &self.from {
                Some(user) => Some(user.clone()),
                None => None,
            },
            chat: self.chat.clone(),
            date: self.date,
            text: clone_text(&self.text),
            message_thread_id: self.message_thread_id,
            reply_to_message: match &self.reply_to_message {
                Some(replied) => Some(Box::new((&**replied).clone())),
                None => None,
            },
            other: clone_fields(&self.other),
        }
    }
}

/// A post in a channel: a message without a sender.
#[derive(Debug)]
pub struct ChannelPost {
    pub message_id: i64,
    pub chat: Chat,
    pub date: i64,
    pub text: Option<String>,
    /// The fields of the API object that have no field here, by name.
    pub other: Vec<(String, serde_json::Value)>,
}

/// What the library reads of a [`ChannelPost`].
pub struct ChannelPostView {
    pub message_id: i64,
    pub chat: ChatView,
    pub date: int,
    pub text: Option<Seq<char>>,
}

impl View for ChannelPost {
    type V = ChannelPostView;

    open spec fn view(&self) -> ChannelPostView {
        ChannelPostView {
            message_id: self.message_id,
            chat: self.chat@,
            date: self.date as int,
            text: text_of(self.text),
        }
    }
}

impl Clone for ChannelPost {
    fn clone(&self) -> (copy: Self)
        ensures
            copy@ == self@,
            copy.other@ == self.other@,
    {
        ChannelPost {
            message_id: self.message_id,
            chat: self.chat.clone(),
            date: self.date,
            text: clone_text(&self.text),
            other: clone_fields(&self.other),
        }
    }
}

/// One event from the Bot API. The source numbers its updates; the payload
/// is a new message, a channel post, an edited message, or something the
/// library has no field for, which then stands in `other` under its name.
#[derive(Debug)]
pub struct Update {
    pub update_id: i64,
    pub message: Option<Message>,
    pub channel_post: Option<ChannelPost>,
    pub edited_message: Option<Message>,
    /// The fields of the API object that have no field here, by name.
    pub other: Vec<(String, serde_json::Value)>,
}

/// What the library reads of an [`Update`].
pub struct UpdateView {
    pub update_id: int,
    pub message: Option<MessageView>,
    pub channel_post: Option<ChannelPostView>,
    pub edited_message: Option<MessageView>,
    /// The names under which the remaining fields stand, in their order.
    pub other_keys: Seq<Seq<char>>,
}

/// The names in a list of named JSON values, in their order.
pub open spec fn field_names(fields: Seq<(String, serde_json::Value)>) -> Seq<Seq<char>> {
    Seq::new(fields.len(), |i: int| fields[i].0@)
}

impl View for Update {
    type V = UpdateView;

    open spec fn view(&self) -> UpdateView {
        UpdateView {
            update_id: self.update_id as int,
            message: match self.message {
                Some(m) => Some(m@),
                None => None,
            },
            channel_post: match self.channel_post {
                Some(p) => Some(p@),
                None => None,
            },
            edited_message: match self.edited_message {
                Some(m) => Some(m@),
                None => None,
            },
            other_keys: field_names(self.other@),
        }
    }
}

/// Whether two updates hold the same fields beside those that have a field
/// of their own: of the update itself, of its message, of its channel post
/// and of its edited message.
pub open spec fn same_other_fields(a: Update, b: Update) -> bool {
    &&& a.other@ == b.other@
    &&& match (a.message, b.message) {
        (Some(m), Some(n)) => m.other@ == n.other@,
        (None, None) => true,
        _ => false,
    }
    &&& match (a.channel_post, b.channel_post) {
        (Some(p), Some(q)) => p.other@ == q.other@,
        (None, None) => true,
        _ => false,
    }
    &&& match (a.edited_message, b.edited_message) {
        (Some(m), Some(n)) => m.other@ == n.other@,
        (None, None) => true,
        _ => false,
    }
}

impl Clone for Update {
    fn clone(&self) -> (copy: Self)
        ensures
            copy@ == self@,
            same_other_fields(copy, *self),
    {
        Update {
            update_id: self.update_id,
            message: match &self.message {
                Some(message) => Some(message.clone()),
                None => None,
            },
            channel_post: match &self.channel_post {
                Some(post) => Some(post.clone()),
                None => None,
            },
            edited_message: match &self.edited_message {
                Some(message) => Some(message.clone()),
                None => None,
            },
            other: clone_fields(&self.other),
        }
    }
}

/// The update kinds that the Bot API names and the library has no field
/// for, in the order in which an update is held against them.
pub open spec fn known_update_types() -> Seq<Seq<char>> {
    seq![
        "edited_channel_post"@,
        "business_connection"@,
        "business_message"@,
        "edited_business_message"@,
        "deleted_business_messages"@,
        "message_reaction"@,
        "message_reaction_count"@,
        "inline_query"@,
        "chosen_inline_result"@,
        "callback_query"@,
        "shipping_query"@,
        "pre_checkout_query"@,
        "purchased_paid_media"@,
        "poll"@,
        "poll_answer"@,
        "my_chat_member"@,
        "chat_member"@,
        "chat_join_request"@,
        "chat_boost"@,
        "removed_chat_boost"@,
    ]
}

/// The first of the known update kinds from position `from` on that is
/// among `keys`.
pub open spec fn first_known_type(keys: Seq<Seq<char>>, from: nat) -> Option<Seq<char>>
    decreases known_update_types().len() - from,
{
    if from >= known_update_types().len() {
        None
    } else if keys.contains(known_update_types()[from as int]) {
        Some(known_update_types()[from as int])
    } else {
        first_known_type(keys, from + 1)
    }
}

impl UpdateView {
    /// The kind of an update, as a word. A message, an edited message and a
    /// channel post are told by their fields, in this order. Otherwise the
    /// first known kind among the remaining field names decides; then the
    /// first remaining field name, behind `other_`; an update with nothing
    /// in it is `unknown`.
    pub open spec fn update_type(self) -> Seq<char> {
        if self.message is Some {
            "message"@
        } else if self.edited_message is Some {
            "edited_message"@
        } else if self.channel_post is Some {
            "channel_post"@
        } else {
            match first_known_type(self.other_keys, 0) {
                Some(kind) => kind,
                None => if self.other_keys.len() > 0 {
                    "other_"@ + self.other_keys[0]
                } else {
                    "unknown"@
                },
            }
        }
    }
}

fn known_update_type(i: usize) -> (name: &'static str)
    requires
        i < 20,
    ensures
        name@ == known_update_types()[i as int],
        known_update_types().len() == 20,
{
    if i == 0 {
        "edited_channel_post"
    } else if i == 1 {
        "business_connection"
    } else if i == 2 {
        "business_message"
    } else if i == 3 {
        "edited_business_message"
    } else if i == 4 {
        "deleted_business_messages"
    } else if i == 5 {
        "message_reaction"
    } else if i == 6 {
        "message_reaction_count"
    } else if i == 7 {
        "inline_query"
    } else if i == 8 {
        "chosen_inline_result"
    } else if i == 9 {
        "callback_query"
    } else if i == 10 {
        "shipping_query"
    } else if i == 11 {
        "pre_checkout_query"
    } else if i == 12 {
        "purchased_paid_media"
    } else if i == 13 {
        "poll"
    } else if i == 14 {
        "poll_answer"
    } else if i == 15 {
        "my_chat_member"
    } else if i == 16 {
        "chat_member"
    } else if i == 17 {
        "chat_join_request"
    } else if i == 18 {
        "chat_boost"
    } else {
        "removed_chat_boost"
    }
}

/// Whether `name` is among the names of `fields`.
fn has_field(fields: &Vec<(String, serde_json::Value)>, name: &str) -> (found: bool)
    ensures
        found == field_names(fields@).contains(name@),
{
    let wanted = String::from_str(name);
    let mut i: usize = 0;
    while i < fields.len()
        invariant
            i <= fields.len(),
            wanted@ == name@,
            forall|j: int| 0 <= j < i ==> field_names(fields@)[j] != name@,
        decreases fields.len() - i,
    {
        if fields[i].0 == wanted {
            assert(field_names(fields@)[i as int] == name@);
            return true;
        }
        i += 1;
    }
    false
}

impl Update {
    /// The kind of this update, as a word.
    pub fn get_update_type(&self) -> (kind: String)
        ensures
            kind@ == self@.update_type(),
    {
        if self.message.is_some() {
            return String::from_str("message");
        }
        if self.edited_message.is_some() {
            return String::from_str("edited_message");
        }
        if self.channel_post.is_some() {
            return String::from_str("channel_post");
        }
        let mut i: usize = 0;
        while i < 20
            invariant
                i <= 20,
                self.message is None,
                self.edited_message is None,
                self.channel_post is None,
                known_update_types().len() == 20,
                first_known_type(self@.other_keys, 0) == first_known_type(
                    self@.other_keys,
                    i as nat,
                ),
            decreases 20 - i,
        {
            let name = known_update_type(i);
            if has_field(&self.other, name) {
                assert(first_known_type(self@.other_keys, i as nat) == Some(name@));
                return String::from_str(name);
            }
            i += 1;
        }
        if self.other.len() > 0 {
            let mut kind = String::from_str("other_");
            kind.append(self.other[0].0.as_str());
            kind
        } else {
            String::from_str("unknown")
        }
    }
}

/// The answer to `getUpdates`.
#[derive(Debug)]
pub struct GetUpdatesResponse {
    pub ok: bool,
    pub result: Vec<Update>,
}

/// The answer to `sendMessage`.
#[derive(Debug)]
pub struct SendMessageResponse {
    pub ok: bool,
    pub result: Option<Message>,
    pub description: Option<String>,
}

/// The answer to `getMe`.
#[derive(Debug)]
pub struct GetMeResponse {
    pub ok: bool,
    pub result: Option<User>,
}

/// A thread of a forum chat, with what was seen of it.
#[derive(Debug)]
pub struct TopicInfo {
    pub thread_id: i64,
    /// Known only where something other than a message supplied it.
    pub name: Option<String>,
    pub message_count: usize,
    pub last_seen: i64,
}

/// What a [`TopicInfo`] says, as plain values.
pub struct TopicView {
    pub thread_id: i64,
    pub name: Option<Seq<char>>,
    pub message_count: nat,
    pub last_seen: int,
}

impl View for TopicInfo {
    type V = TopicView;

    open spec fn view(&self) -> TopicView {
        TopicView {
            thread_id: self.thread_id,
            name: text_of(self.name),
            message_count: self.message_count as nat,
            last_seen: self.last_seen as int,
        }
    }
}

impl Clone for TopicInfo {
    fn clone(&self) -> (copy: Self)
        ensures
            copy == *self,
    {
        TopicInfo {
            thread_id: self.thread_id,
            name: clone_text(&self.name),
            message_count: self.message_count,
            last_seen: self.last_seen,
        }
    }
}

/// The views of a list of topics, in their order.
pub open spec fn topic_views(topics: Seq<TopicInfo>) -> Seq<TopicView> {
    Seq::new(topics.len(), |i: int| topics[i]@)
}

/// A chat the bot has met, with what was seen of it.
#[derive(Debug)]
pub struct DiscoveredChat {
    /// The chat as it was when first met.
    pub chat: Chat,
    /// The latest date seen in the chat.
    pub last_seen: i64,
    pub message_count: usize,
    pub topics: Vec<TopicInfo>,
}

/// What a [`DiscoveredChat`] says, as plain values.
pub struct DiscoveredChatView {
    pub chat: ChatView,
    pub last_seen: int,
    pub message_count: nat,
    pub topics: Seq<TopicView>,
}

impl View for DiscoveredChat {
    type V = DiscoveredChatView;

    open spec fn view(&self) -> DiscoveredChatView {
        DiscoveredChatView {
            chat: self.chat@,
            last_seen: self.last_seen as int,
            message_count: self.message_count as nat,
            topics: topic_views(self.topics@),
        }
    }
}

/// The views of a list of chats, in their order.
pub open spec fn chat_views(chats: Seq<&DiscoveredChat>) -> Seq<DiscoveredChatView> {
    Seq::new(chats.len(), |i: int| (*chats[i])@)
}

/// A copy of a list of topics.
pub fn clone_topics(topics: &Vec<TopicInfo>) -> (copy: Vec<TopicInfo>)
    ensures
        copy@ == topics@,
{
    let mut copy: Vec<TopicInfo> = Vec::new();
    let mut i: usize = 0;
    while i < topics.len()
        invariant
            i <= topics.len(),
            copy@ == topics@.subrange(0, i as int),
        decreases topics.len() - i,
    {
        copy.push(topics[i].clone());
        assert(copy@ =~= topics@.subrange(0, i + 1));
        i += 1;
    }
    assert(topics@.subrange(0, topics.len() as int) =~= topics@);
    copy
}

impl Clone for DiscoveredChat {
    fn clone(&self) -> (copy: Self)
        ensures
            copy@ == self@,
    {
        DiscoveredChat {
            chat: self.chat.clone(),
            last_seen: self.last_seen,
            message_count: self.message_count,
            topics: clone_topics(&self.topics),
        }
    }
}

} // verus!
