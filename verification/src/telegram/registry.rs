//! The registry of discovered chats as a mathematical object: what one
//! update does to it, and what a sequence of updates does.

use super::types::{ChatView, DiscoveredChatView, TopicView, Update, UpdateView};
use vstd::prelude::*;

verus! {

/// The registry and the offset watermark of a processor.
pub struct ProcessorView {
    /// The discovered chats, by chat id.
    pub registry: Map<i64, DiscoveredChatView>,
    /// The highest update id met so far; 0 at the start.
    pub watermark: int,
}

/// The later of two dates; also the higher of two update ids.
pub open spec fn later(a: int, b: int) -> int {
    if a >= b {
        a
    } else {
        b
    }
}

/// The position of the first topic with the thread id `thread_id`.
pub open spec fn topic_position(topics: Seq<TopicView>, thread_id: i64) -> Option<int>
    decreases topics.len(),
{
    if topics.len() == 0 {
        None
    } else {
        match topic_position(topics.drop_last(), thread_id) {
            Some(i) => Some(i),
            None => if topics.last().thread_id == thread_id {
                Some(topics.len() - 1)
            } else {
                None
            },
        }
    }
}

/// A topic after one more message dated `date`.
pub open spec fn topic_after_message(topic: TopicView, date: int) -> TopicView {
    TopicView {
        thread_id: topic.thread_id,
        name: topic.name,
        message_count: topic.message_count + 1,
        last_seen: later(date, topic.last_seen),
    }
}

/// A topic met for the first time, in a message dated `date`. A message
/// never carries the topic's name.
pub open spec fn new_topic(thread_id: i64, date: int) -> TopicView {
    TopicView { thread_id, name: None, message_count: 1, last_seen: date }
}

/// The topics of a chat after a message dated `date` in the thread
/// `thread_id`: the thread's topic counts one more, or a new topic joins at
/// the end.
pub open spec fn topics_after_message(topics: Seq<TopicView>, thread_id: i64, date: int) -> Seq<
    TopicView,
> {
    match topic_position(topics, thread_id) {
        Some(i) => topics.update(i, topic_after_message(topics[i], date)),
        None => topics.push(new_topic(thread_id, date)),
    }
}

/// The entry of `chat` in the registry; for a chat that has none, the entry
/// it starts with, which keeps the chat as it is now.
pub open spec fn entry_or_new(
    registry: Map<i64, DiscoveredChatView>,
    chat: ChatView,
    date: int,
) -> DiscoveredChatView {
    if registry.contains_key(chat.id) {
        registry[chat.id]
    } else {
        DiscoveredChatView { chat, last_seen: date, message_count: 0, topics: Seq::empty() }
    }
}

/// The registry after a message or channel post in `chat`, dated `date`, in
/// the thread `thread` if any. The chat's entry is made if it is missing,
/// counts one more message and keeps the latest date; what the entry says
/// of the chat itself stays as first seen.
pub open spec fn registry_after_post(
    registry: Map<i64, DiscoveredChatView>,
    chat: ChatView,
    date: int,
    thread: Option<i64>,
) -> Map<i64, DiscoveredChatView> {
    let entry = entry_or_new(registry, chat, date);
    registry.insert(
        chat.id,
        DiscoveredChatView {
            chat: entry.chat,
            last_seen: later(date, entry.last_seen),
            message_count: entry.message_count + 1,
            topics: match thread {
                Some(thread_id) => topics_after_message(entry.topics, thread_id, date),
                None => entry.topics,
            },
        },
    )
}

/// The registry after an edit dated `date` in the chat `chat_id`: a known
/// chat keeps the latest date, an unknown chat changes nothing.
pub open spec fn registry_after_edit(
    registry: Map<i64, DiscoveredChatView>,
    chat_id: i64,
    date: int,
) -> Map<i64, DiscoveredChatView> {
    if registry.contains_key(chat_id) {
        let entry = registry[chat_id];
        registry.insert(
            chat_id,
            DiscoveredChatView {
                chat: entry.chat,
                last_seen: later(date, entry.last_seen),
                message_count: entry.message_count,
                topics: entry.topics,
            },
        )
    } else {
        registry
    }
}

/// The registry after one update: its message, then its channel post, then
/// its edited message, each where the update has one.
pub open spec fn registry_after_update(
    registry: Map<i64, DiscoveredChatView>,
    update: UpdateView,
) -> Map<i64, DiscoveredChatView> {
    let after_message = match update.message {
        Some(m) => registry_after_post(registry, m.chat, m.date, m.message_thread_id),
        None => registry,
    };
    let after_post = match update.channel_post {
        Some(p) => registry_after_post(after_message, p.chat, p.date, None),
        None => after_message,
    };
    match update.edited_message {
        Some(e) => registry_after_edit(after_post, e.chat.id, e.date),
        None => after_post,
    }
}

impl ProcessorView {
    /// A processor that has seen nothing.
    pub open spec fn initial() -> ProcessorView {
        ProcessorView { registry: Map::empty(), watermark: 0 }
    }

    /// The processor after one update. Every update raises the watermark to
    /// its id if that is higher, whatever else it holds.
    pub open spec fn after_update(self, update: UpdateView) -> ProcessorView {
        ProcessorView {
            registry: registry_after_update(self.registry, update),
            watermark: later(update.update_id, self.watermark),
        }
    }

    /// The processor after a batch of updates, taken in their order.
    pub open spec fn after_updates(self, updates: Seq<UpdateView>) -> ProcessorView
        decreases updates.len(),
    {
        if updates.len() == 0 {
            self
        } else {
            self.after_updates(updates.drop_last()).after_update(updates.last())
        }
    }

    /// The processor after several batches, one after the other.
    pub open spec fn after_batches(self, batches: Seq<Seq<UpdateView>>) -> ProcessorView
        decreases batches.len(),
    {
        if batches.len() == 0 {
            self
        } else {
            self.after_batches(batches.drop_last()).after_updates(batches.last())
        }
    }

    /// Whether `n` more updates can be counted without any message count
    /// leaving the range of `usize`. One update counts at most two messages
    /// for a chat.
    pub open spec fn has_room(self, n: nat) -> bool {
        &&& 2 * n <= usize::MAX
        &&& forall|id: i64| #[trigger]
            self.registry.contains_key(id) ==> self.registry[id].message_count + 2 * n
                <= usize::MAX
    }
}

/// What holds of every entry of a registry: it stands under its chat's id,
/// no topic has counted more messages than the chat, and no thread id
/// occurs in two topics.
pub open spec fn entry_wf(id: i64, entry: DiscoveredChatView) -> bool {
    &&& entry.chat.id == id
    &&& forall|i: int|
        0 <= i < entry.topics.len() ==> (#[trigger] entry.topics[i]).message_count
            <= entry.message_count
    &&& forall|i: int, j: int|
        0 <= i < j < entry.topics.len() ==> (#[trigger] entry.topics[i]).thread_id != (
        #[trigger] entry.topics[j]).thread_id
}

/// What holds of every registry that a processor has built.
pub open spec fn registry_wf(registry: Map<i64, DiscoveredChatView>) -> bool {
    &&& registry.dom().finite()
    &&& forall|id: i64| #[trigger] registry.contains_key(id) ==> entry_wf(id, registry[id])
}

/// The views of a batch of updates, in their order.
pub open spec fn update_views(updates: Seq<Update>) -> Seq<UpdateView> {
    Seq::new(updates.len(), |i: int| updates[i]@)
}

/// No topic before position `upto` has the thread id `thread_id`.
pub proof fn lemma_topic_position_none(topics: Seq<TopicView>, thread_id: i64)
    ensures
        topic_position(topics, thread_id) is None <==> forall|i: int|
            0 <= i < topics.len() ==> (#[trigger] topics[i]).thread_id != thread_id,
        topic_position(topics, thread_id) matches Some(p) ==> 0 <= p < topics.len()
            && topics[p].thread_id == thread_id && forall|i: int|
            0 <= i < p ==> (#[trigger] topics[i]).thread_id != thread_id,
    decreases topics.len(),
{
    if topics.len() > 0 {
        let front = topics.drop_last();
        lemma_topic_position_none(front, thread_id);
        assert(forall|i: int| 0 <= i < front.len() ==> front[i] == topics[i]);
        if topic_position(front, thread_id) is None {
            assert forall|i: int| 0 <= i < topics.len() - 1 implies (#[trigger] topics[i]).thread_id
                != thread_id by {
                assert(front[i].thread_id != thread_id);
            }
        }
    }
}

/// A well-formed entry stays well-formed when a post is counted in it.
pub proof fn lemma_post_keeps_wf(
    registry: Map<i64, DiscoveredChatView>,
    chat: ChatView,
    date: int,
    thread: Option<i64>,
)
    requires
        registry_wf(registry),
    ensures
        registry_wf(registry_after_post(registry, chat, date, thread)),
{
    let entry = entry_or_new(registry, chat, date);
    let after = registry_after_post(registry, chat, date, thread);
    assert(entry_wf(chat.id, entry));
    match thread {
        Some(thread_id) => {
            lemma_topic_position_none(entry.topics, thread_id);
        },
        None => {},
    }
    assert(entry_wf(chat.id, after[chat.id]));
    assert forall|id: i64| #[trigger] after.contains_key(id) implies entry_wf(id, after[id]) by {
        if id != chat.id {
            assert(registry.contains_key(id));
        }
    }
}

/// A well-formed registry stays well-formed under an edit.
pub proof fn lemma_edit_keeps_wf(registry: Map<i64, DiscoveredChatView>, chat_id: i64, date: int)
    requires
        registry_wf(registry),
    ensures
        registry_wf(registry_after_edit(registry, chat_id, date)),
{
    let after = registry_after_edit(registry, chat_id, date);
    assert forall|id: i64| #[trigger] after.contains_key(id) implies entry_wf(id, after[id]) by {
        assert(registry.contains_key(id));
    }
}

/// A well-formed registry stays well-formed under any update.
pub proof fn lemma_update_keeps_wf(registry: Map<i64, DiscoveredChatView>, update: UpdateView)
    requires
        registry_wf(registry),
    ensures
        registry_wf(registry_after_update(registry, update)),
{
    let after_message = match update.message {
        Some(m) => registry_after_post(registry, m.chat, m.date, m.message_thread_id),
        None => registry,
    };
    if let Some(m) = update.message {
        lemma_post_keeps_wf(registry, m.chat, m.date, m.message_thread_id);
    }
    let after_post = match update.channel_post {
        Some(p) => registry_after_post(after_message, p.chat, p.date, None),
        None => after_message,
    };
    if let Some(p) = update.channel_post {
        lemma_post_keeps_wf(after_message, p.chat, p.date, None);
    }
    if let Some(e) = update.edited_message {
        lemma_edit_keeps_wf(after_post, e.chat.id, e.date);
    }
}

/// One update takes up the room of one update.
pub proof fn lemma_update_uses_room(state: ProcessorView, update: UpdateView, n: nat)
    requires
        state.has_room(n + 1),
    ensures
        state.after_update(update).has_room(n),
{
    let registry = state.registry;
    let after_message = match update.message {
        Some(m) => registry_after_post(registry, m.chat, m.date, m.message_thread_id),
        None => registry,
    };
    let after_post = match update.channel_post {
        Some(p) => registry_after_post(after_message, p.chat, p.date, None),
        None => after_message,
    };
    let after = registry_after_update(registry, update);
    assert forall|id: i64| #[trigger] after_message.contains_key(id) implies after_message[id].message_count
        + 2 * n + 1 <= usize::MAX by {
        if registry.contains_key(id) {
        }
    }
    assert forall|id: i64| #[trigger] after_post.contains_key(id) implies after_post[id].message_count
        + 2 * n <= usize::MAX by {
        if after_message.contains_key(id) {
        }
    }
    assert forall|id: i64| #[trigger] after.contains_key(id) implies after[id].message_count + 2
        * n <= usize::MAX by {
        if after_post.contains_key(id) {
        }
    }
}

/// A batch of updates takes up the room of as many updates as it holds.
pub proof fn lemma_updates_use_room(state: ProcessorView, updates: Seq<UpdateView>, n: nat)
    requires
        state.has_room(updates.len() + n),
    ensures
        state.after_updates(updates).has_room(n),
    decreases updates.len(),
{
    if updates.len() > 0 {
        lemma_updates_use_room(state, updates.drop_last(), n + 1);
        lemma_update_uses_room(state.after_updates(updates.drop_last()), updates.last(), n);
    }
}

/// The views of the updates of several batches, batch by batch.
pub open spec fn batch_views(batches: Seq<Vec<Update>>) -> Seq<Seq<UpdateView>> {
    Seq::new(batches.len(), |i: int| update_views(batches[i]@))
}

/// The number of updates in several batches.
pub open spec fn total_updates(batches: Seq<Seq<UpdateView>>) -> nat
    decreases batches.len(),
{
    if batches.len() == 0 {
        0
    } else {
        total_updates(batches.drop_last()) + batches.last().len()
    }
}

/// The first batches of several hold no more updates than all of them.
pub proof fn lemma_total_updates_grows(batches: Seq<Seq<UpdateView>>, n: int)
    requires
        0 <= n <= batches.len(),
    ensures
        total_updates(batches.take(n)) <= total_updates(batches),
    decreases batches.len(),
{
    if n == batches.len() {
        assert(batches.take(n) =~= batches);
    } else {
        lemma_total_updates_grows(batches.drop_last(), n);
        assert(batches.drop_last().take(n) =~= batches.take(n));
    }
}

} // verus!
