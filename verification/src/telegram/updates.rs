//! The update processor: it folds updates into the registry of discovered
//! chats and keeps the offset watermark.

use super::registry::{
    entry_wf, later, lemma_edit_keeps_wf, lemma_post_keeps_wf, lemma_topic_position_none,
    lemma_update_uses_room, new_topic, registry_after_edit, registry_after_post,
    registry_after_update, registry_wf,
    topic_after_message, topic_position, topics_after_message, update_views, ProcessorView,
};
use super::types::{
    chat_views, clone_text, topic_views, Chat, DiscoveredChat, DiscoveredChatView, TopicInfo,
    Update,
};
use std::collections::HashMap;
use vstd::prelude::*;

verus! {

broadcast use vstd::std_specs::hash::group_hash_axioms;

/// The registry that a map of discovered chats stands for.
pub open spec fn registry_view(chats: Map<i64, DiscoveredChat>) -> Map<i64, DiscoveredChatView> {
    Map::new(|id: i64| chats.contains_key(id), |id: i64| chats[id]@)
}

/// The processor that holds the chats `chats` and the watermark `watermark`.
pub open spec fn state_of(chats: Map<i64, DiscoveredChat>, watermark: i64) -> ProcessorView {
    ProcessorView { registry: registry_view(chats), watermark: watermark as int }
}

/// The order of a snapshot: the chat seen later comes first, and of two
/// chats last seen at the same date the one with the lower id.
pub open spec fn comes_before(a: DiscoveredChatView, b: DiscoveredChatView) -> bool {
    a.last_seen > b.last_seen || (a.last_seen == b.last_seen && a.chat.id < b.chat.id)
}

/// Whether every chat of a list comes before those behind it.
pub open spec fn in_order(chats: Seq<DiscoveredChatView>) -> bool {
    forall|i: int, j: int|
        0 <= i < j < chats.len() ==> comes_before(#[trigger] chats[i], #[trigger] chats[j])
}

/// Whether `chats` is the snapshot of `registry`: every entry once, as the
/// registry holds it, in the order of [`comes_before`].
pub open spec fn is_snapshot(
    chats: Seq<DiscoveredChatView>,
    registry: Map<i64, DiscoveredChatView>,
) -> bool {
    &&& chats.len() == registry.dom().len()
    &&& forall|i: int|
        0 <= i < chats.len() ==> registry.contains_key((#[trigger] chats[i]).chat.id)
            && registry[chats[i].chat.id] == chats[i]
    &&& forall|id: i64| #[trigger]
        registry.contains_key(id) ==> exists|i: int|
            0 <= i < chats.len() && (#[trigger] chats[i]).chat.id == id
    &&& in_order(chats)
}

/// Two lists in snapshot order that hold the same chats are the same list.
pub proof fn lemma_order_is_unique(a: Seq<DiscoveredChatView>, b: Seq<DiscoveredChatView>)
    requires
        in_order(a),
        in_order(b),
        forall|x: DiscoveredChatView| a.contains(x) <==> b.contains(x),
    ensures
        a == b,
    decreases a.len(),
{
    if a.len() == 0 {
        if b.len() > 0 {
            assert(b.contains(b[0]));
        }
        assert(a =~= b);
    } else {
        assert(a.contains(a[0]));
        let j = choose|j: int| 0 <= j < b.len() && b[j] == a[0];
        assert(b.contains(b[0]));
        let k = choose|k: int| 0 <= k < a.len() && a[k] == b[0];
        if j > 0 {
            assert(comes_before(b[0], b[j]));
            if k > 0 {
                assert(comes_before(a[0], a[k]));
            }
        }
        assert(a[0] == b[0]);
        let ra = a.drop_first();
        let rb = b.drop_first();
        assert forall|x: DiscoveredChatView| ra.contains(x) <==> rb.contains(x) by {
            if ra.contains(x) {
                let i = choose|i: int| 0 <= i < ra.len() && ra[i] == x;
                assert(a[i + 1] == x);
                assert(comes_before(a[0], a[i + 1]));
                assert(a.contains(x));
                let m = choose|m: int| 0 <= m < b.len() && b[m] == x;
                assert(m > 0);
                assert(rb[m - 1] == x);
            }
            if rb.contains(x) {
                let i = choose|i: int| 0 <= i < rb.len() && rb[i] == x;
                assert(b[i + 1] == x);
                assert(comes_before(b[0], b[i + 1]));
                assert(b.contains(x));
                let m = choose|m: int| 0 <= m < a.len() && a[m] == x;
                assert(m > 0);
                assert(ra[m - 1] == x);
            }
        }
        assert forall|p: int, q: int| 0 <= p < q < ra.len() implies comes_before(
            #[trigger] ra[p],
            #[trigger] ra[q],
        ) by {
            assert(comes_before(a[p + 1], a[q + 1]));
        }
        assert forall|p: int, q: int| 0 <= p < q < rb.len() implies comes_before(
            #[trigger] rb[p],
            #[trigger] rb[q],
        ) by {
            assert(comes_before(b[p + 1], b[q + 1]));
        }
        lemma_order_is_unique(ra, rb);
        assert(a =~= seq![a[0]] + ra);
        assert(b =~= seq![b[0]] + rb);
    }
}

/// A registry has one snapshot only: the order leaves nothing open.
pub proof fn law_snapshot_is_unique(
    a: Seq<DiscoveredChatView>,
    b: Seq<DiscoveredChatView>,
    registry: Map<i64, DiscoveredChatView>,
)
    requires
        is_snapshot(a, registry),
        is_snapshot(b, registry),
    ensures
        a == b,
{
    assert forall|x: DiscoveredChatView| a.contains(x) <==> b.contains(x) by {
        if a.contains(x) {
            let i = choose|i: int| 0 <= i < a.len() && a[i] == x;
            assert(registry.contains_key(a[i].chat.id));
            let m = choose|m: int| 0 <= m < b.len() && (#[trigger] b[m]).chat.id == x.chat.id;
            assert(b[m] == registry[x.chat.id]);
        }
        if b.contains(x) {
            let i = choose|i: int| 0 <= i < b.len() && b[i] == x;
            assert(registry.contains_key(b[i].chat.id));
            let m = choose|m: int| 0 <= m < a.len() && (#[trigger] a[m]).chat.id == x.chat.id;
            assert(a[m] == registry[x.chat.id]);
        }
    }
    lemma_order_is_unique(a, b);
}

/// The snapshot of a registry: its chats, the one seen latest first.
pub open spec fn snapshot_of(registry: Map<i64, DiscoveredChatView>) -> Seq<DiscoveredChatView> {
    choose|chats: Seq<DiscoveredChatView>| is_snapshot(chats, registry)
}

/// A list in snapshot order that holds only entries of the registry, and
/// as many as the registry has, holds every entry.
proof fn lemma_snapshot_is_whole(
    chats: Seq<DiscoveredChatView>,
    registry: Map<i64, DiscoveredChatView>,
)
    requires
        registry.dom().finite(),
        chats.len() == registry.dom().len(),
        in_order(chats),
        forall|i: int|
            0 <= i < chats.len() ==> registry.contains_key((#[trigger] chats[i]).chat.id)
                && registry[chats[i].chat.id] == chats[i],
    ensures
        forall|id: i64| #[trigger]
            registry.contains_key(id) ==> exists|i: int|
                0 <= i < chats.len() && (#[trigger] chats[i]).chat.id == id,
{
    let ids = Seq::new(chats.len(), |i: int| chats[i].chat.id);
    assert forall|i: int, j: int| 0 <= i < ids.len() && 0 <= j < ids.len() && i != j implies ids[i]
        != ids[j] by {
        if i < j {
            assert(comes_before(chats[i], chats[j]));
        } else {
            assert(comes_before(chats[j], chats[i]));
        }
    }
    ids.unique_seq_to_set();
    assert forall|id: i64| ids.to_set().contains(id) implies registry.dom().contains(id) by {
        let i = choose|i: int| 0 <= i < ids.len() && ids[i] == id;
        assert(registry.contains_key(chats[i].chat.id));
    }
    vstd::set_lib::lemma_len_subset(ids.to_set(), registry.dom());
    vstd::set_lib::lemma_subset_equality(ids.to_set(), registry.dom());
    assert forall|id: i64| #[trigger] registry.contains_key(id) implies exists|i: int|
        0 <= i < chats.len() && (#[trigger] chats[i]).chat.id == id by {
        assert(ids.to_set().contains(id));
        let i = choose|i: int| 0 <= i < ids.len() && ids[i] == id;
        assert(chats[i].chat.id == id);
    }
}

/// Counts a message dated `date` in the topic of the thread `thread_id`.
fn count_in_topic(topics: &mut Vec<TopicInfo>, thread_id: i64, date: i64)
    requires
        forall|i: int|
            0 <= i < old(topics).len() ==> (#[trigger] old(topics)[i]).message_count < usize::MAX,
    ensures
        topic_views(final(topics)@) == topics_after_message(
            topic_views(old(topics)@),
            thread_id,
            date as int,
        ),
{
    let ghost before = topic_views(topics@);
    proof {
        lemma_topic_position_none(before, thread_id);
    }
    let mut i: usize = 0;
    while i < topics.len()
        invariant
            i <= topics.len(),
            topics@ == old(topics)@,
            before == topic_views(topics@),
            forall|j: int| 0 <= j < i ==> (#[trigger] before[j]).thread_id != thread_id,
            forall|j: int|
                0 <= j < topics.len() ==> (#[trigger] topics[j]).message_count < usize::MAX,
            topic_position(before, thread_id) is None <==> forall|j: int|
                0 <= j < before.len() ==> (#[trigger] before[j]).thread_id != thread_id,
            topic_position(before, thread_id) matches Some(p) ==> 0 <= p < before.len()
                && before[p].thread_id == thread_id && forall|j: int|
                0 <= j < p ==> (#[trigger] before[j]).thread_id != thread_id,
        decreases topics.len() - i,
    {
        if topics[i].thread_id == thread_id {
            assert(before[i as int].thread_id == thread_id);
            assert(topic_position(before, thread_id) == Some(i as int));
            let counted = TopicInfo {
                thread_id: topics[i].thread_id,
                name: clone_text(&topics[i].name),
                message_count: topics[i].message_count + 1,
                last_seen: if date > topics[i].last_seen {
                    date
                } else {
                    topics[i].last_seen
                },
            };
            assert(counted@ == topic_after_message(before[i as int], date as int));
            topics.set(i, counted);
            assert(topic_views(topics@) =~= before.update(i as int, counted@));
            return ;
        }
        i += 1;
    }
    let fresh = TopicInfo { thread_id, name: None, message_count: 1, last_seen: date };
    assert(fresh@ == new_topic(thread_id, date as int));
    topics.push(fresh);
    assert(topic_views(topics@) =~= before.push(fresh@));
}

/// Counts a message or channel post of `chat`, dated `date`, in the thread
/// `thread` if any.
fn count_post(
    chats: &mut HashMap<i64, DiscoveredChat>,
    chat: &Chat,
    date: i64,
    thread: Option<i64>,
)
    requires
        registry_wf(registry_view(old(chats)@)),
        forall|id: i64| #[trigger]
            registry_view(old(chats)@).contains_key(id) ==> registry_view(
                old(chats)@,
            )[id].message_count < usize::MAX,
    ensures
        registry_wf(registry_view(final(chats)@)),
        registry_view(final(chats)@) == registry_after_post(
            registry_view(old(chats)@),
            chat@,
            date as int,
            thread,
        ),
{
    let ghost before = registry_view(chats@);
    proof {
        lemma_post_keeps_wf(before, chat@, date as int, thread);
    }
    let mut entry = match chats.remove(&chat.id) {
        Some(entry) => entry,
        None => DiscoveredChat {
            chat: chat.clone(),
            last_seen: date,
            message_count: 0,
            topics: Vec::new(),
        },
    };
    assert(before.contains_key(chat.id) ==> before[chat.id].message_count < usize::MAX);
    let ghost start = entry@;
    assert(start.topics =~= super::registry::entry_or_new(before, chat@, date as int).topics);
    assert(start == super::registry::entry_or_new(before, chat@, date as int));
    assert(entry_wf(chat.id, start));
    entry.message_count = entry.message_count + 1;
    if date > entry.last_seen {
        entry.last_seen = date;
    }
    match thread {
        Some(thread_id) => {
            assert forall|i: int| 0 <= i < entry.topics.len() implies (
            #[trigger] entry.topics[i]).message_count < usize::MAX by {
                assert(start.topics[i].message_count <= start.message_count);
            }
            count_in_topic(&mut entry.topics, thread_id, date);
        },
        None => {},
    }
    chats.insert(chat.id, entry);
    assert(registry_view(chats@) =~= registry_after_post(before, chat@, date as int, thread));
}

/// Notes an edit dated `date` in the chat `chat_id`.
fn note_edit(chats: &mut HashMap<i64, DiscoveredChat>, chat_id: i64, date: i64)
    requires
        registry_wf(registry_view(old(chats)@)),
    ensures
        registry_wf(registry_view(final(chats)@)),
        registry_view(final(chats)@) == registry_after_edit(
            registry_view(old(chats)@),
            chat_id,
            date as int,
        ),
{
    let ghost before = registry_view(chats@);
    proof {
        lemma_edit_keeps_wf(before, chat_id, date as int);
    }
    match chats.remove(&chat_id) {
        Some(entry) => {
            let mut entry = entry;
            if date > entry.last_seen {
                entry.last_seen = date;
            }
            chats.insert(chat_id, entry);
            assert(registry_view(chats@) =~= registry_after_edit(before, chat_id, date as int));
        },
        None => {
            assert(registry_view(chats@) =~= before);
        },
    }
}

/// Folds one update into a map of chats: its message, then its channel
/// post, then its edited message.
fn fold_update(chats: &mut HashMap<i64, DiscoveredChat>, update: &Update)
    requires
        registry_wf(registry_view(old(chats)@)),
        state_of(old(chats)@, 0).has_room(1),
    ensures
        registry_wf(registry_view(final(chats)@)),
        registry_view(final(chats)@) == registry_after_update(
            registry_view(old(chats)@),
            update@,
        ),
{
    let ghost before = registry_view(chats@);
    match &update.message {
        Some(message) => {
            count_post(chats, &message.chat, message.date, message.message_thread_id);
        },
        None => {},
    }
    let ghost after_message = registry_view(chats@);
    assert forall|id: i64| #[trigger] after_message.contains_key(id) implies after_message[id].message_count
        < usize::MAX by {
        if before.contains_key(id) {
        }
    }
    match &update.channel_post {
        Some(post) => {
            count_post(chats, &post.chat, post.date, None);
        },
        None => {},
    }
    match &update.edited_message {
        Some(edited) => {
            note_edit(chats, edited.chat.id, edited.date);
        },
        None => {},
    }
}

/// The keys of a map of chats, each once.
fn chat_ids(chats: &HashMap<i64, DiscoveredChat>) -> (ids: Vec<i64>)
    ensures
        ids@.to_set() == chats@.dom(),
        ids@.no_duplicates(),
        ids@.len() == chats@.dom().len(),
{
    let mut ids: Vec<i64> = Vec::new();
    for id in walk: chats.keys()
        invariant
            ids@ == walk.seq().unref().take(walk.index() as int),
            walk.seq().unref().to_set() == chats@.dom(),
            walk.seq().no_duplicates(),
            walk.seq().len() == chats@.dom().len(),
            walk.index() == walk.seq().len() ==> ids@ == walk.seq().unref(),
    {
        ids.push(*id);
        assert(walk.seq().unref().take(walk.seq().len() as int) =~= walk.seq().unref());
    }
    ids
}

/// Whether `a` stands before `b` in a snapshot.
fn stands_before(a: &DiscoveredChat, b: &DiscoveredChat) -> (before: bool)
    ensures
        before == comes_before(a@, b@),
{
    a.last_seen > b.last_seen || (a.last_seen == b.last_seen && a.chat.id < b.chat.id)
}

/// Puts `entry` into a list of chats at its place in snapshot order.
fn place<'a>(chats: &mut Vec<&'a DiscoveredChat>, entry: &'a DiscoveredChat) -> (pos: usize)
    requires
        in_order(chat_views(old(chats)@)),
        forall|i: int|
            0 <= i < old(chats).len() ==> (#[trigger] chat_views(old(chats)@)[i]).chat.id
                != entry@.chat.id,
    ensures
        pos <= old(chats).len(),
        chat_views(final(chats)@) == chat_views(old(chats)@).insert(pos as int, entry@),
        in_order(chat_views(final(chats)@)),
{
    let ghost old_views = chat_views(chats@);
    let mut pos: usize = 0;
    while pos < chats.len() && stands_before(chats[pos], entry)
        invariant
            pos <= chats.len(),
            chats@ == old(chats)@,
            old_views == chat_views(chats@),
            forall|i: int| 0 <= i < pos ==> comes_before(#[trigger] old_views[i], entry@),
        decreases chats.len() - pos,
    {
        pos += 1;
    }
    assert forall|i: int| pos <= i < old_views.len() implies comes_before(
        entry@,
        #[trigger] old_views[i],
    ) by {
        assert(!comes_before(old_views[pos as int], entry@));
        assert(old_views[pos as int].chat.id != entry@.chat.id);
        if i > pos {
            assert(comes_before(old_views[pos as int], old_views[i]));
        }
    }
    chats.insert(pos, entry);
    let ghost new_views = chat_views(chats@);
    assert(new_views =~= old_views.insert(pos as int, entry@));
    assert forall|i: int, j: int| 0 <= i < j < new_views.len() implies comes_before(
        #[trigger] new_views[i],
        #[trigger] new_views[j],
    ) by {
        let a = if i < pos {
            i
        } else {
            i - 1
        };
        let b = if j < pos {
            j
        } else {
            j - 1
        };
        if i != pos && j != pos {
            assert(new_views[i] == old_views[a]);
            assert(new_views[j] == old_views[b]);
            assert(comes_before(old_views[a], old_views[b]));
        } else if i == pos {
            assert(new_views[j] == old_views[b]);
        } else {
            assert(new_views[i] == old_views[a]);
        }
    }
    pos
}

/// Folds updates into a registry of discovered chats. The registry starts
/// empty and only this processor changes it.
pub struct UpdateProcessor {
    discovered_chats: HashMap<i64, DiscoveredChat>,
    last_update_id: i64,
}

impl View for UpdateProcessor {
    type V = ProcessorView;

    closed spec fn view(&self) -> ProcessorView {
        state_of(self.discovered_chats@, self.last_update_id)
    }
}

impl UpdateProcessor {
    #[verifier::type_invariant]
    spec fn well_formed(self) -> bool {
        registry_wf(registry_view(self.discovered_chats@))
    }

    /// A processor that has seen nothing.
    pub fn new() -> (processor: Self)
        ensures
            processor@ == ProcessorView::initial(),
    {
        let chats: HashMap<i64, DiscoveredChat> = HashMap::new();
        assert(registry_view(chats@) =~= Map::empty());
        UpdateProcessor { discovered_chats: chats, last_update_id: 0 }
    }

    /// The highest update id met so far; 0 before the first.
    pub fn last_update_id(&self) -> (id: i64)
        ensures
            id == self@.watermark,
    {
        self.last_update_id
    }

    /// Folds a batch of updates into the registry, in their order. No update
    /// is refused: ids may repeat or come out of order.
    pub fn process_updates(&mut self, updates: Vec<Update>)
        requires
            old(self)@.has_room(updates@.len()),
        ensures
            final(self)@ == old(self)@.after_updates(update_views(updates@)),
            registry_wf(final(self)@.registry),
    {
        proof {
            use_type_invariant(&*self);
        }
        let ghost views = update_views(updates@);
        let mut chats: HashMap<i64, DiscoveredChat> = HashMap::new();
        assert(registry_view(chats@) =~= Map::empty());
        std::mem::swap(&mut self.discovered_chats, &mut chats);
        let mut watermark: i64 = self.last_update_id;
        let mut i: usize = 0;
        assert(views.take(0) =~= Seq::empty());
        while i < updates.len()
            invariant
                i <= updates.len(),
                views == update_views(updates@),
                registry_wf(registry_view(chats@)),
                state_of(chats@, watermark) == old(self)@.after_updates(views.take(i as int)),
                state_of(chats@, watermark).has_room((updates.len() - i) as nat),
            decreases updates.len() - i,
        {
            let ghost state = state_of(chats@, watermark);
            proof {
                lemma_update_uses_room(state, updates[i as int]@, (updates.len() - i - 1) as nat);
                assert(views.take(i + 1).drop_last() =~= views.take(i as int));
                assert(views.take(i + 1).last() == updates[i as int]@);
            }
            if updates[i].update_id > watermark {
                watermark = updates[i].update_id;
            }
            fold_update(&mut chats, &updates[i]);
            i += 1;
        }
        assert(views.take(updates.len() as int) =~= views);
        std::mem::swap(&mut self.discovered_chats, &mut chats);
        self.last_update_id = watermark;
    }

    /// Whether `n` more updates can be counted without any message count
    /// leaving the range of `usize`.
    pub fn has_room_for(&self, n: usize) -> (room: bool)
        ensures
            room == self@.has_room(n as nat),
    {
        if n > usize::MAX / 2 {
            return false;
        }
        let limit: usize = usize::MAX - 2 * n;
        let ids = chat_ids(&self.discovered_chats);
        let ghost registry = self@.registry;
        let mut k: usize = 0;
        while k < ids.len()
            invariant
                k <= ids.len(),
                2 * n <= usize::MAX,
                limit == usize::MAX - 2 * n,
                registry == registry_view(self.discovered_chats@),
                ids@.to_set() == self.discovered_chats@.dom(),
                forall|j: int|
                    0 <= j < k ==> registry[#[trigger] ids[j]].message_count + 2 * n
                        <= usize::MAX,
            decreases ids.len() - k,
        {
            let id: i64 = ids[k];
            assert(ids@.to_set().contains(id));
            assert(registry.contains_key(id));
            match self.discovered_chats.get(&id) {
                Some(entry) => {
                    if entry.message_count > limit {
                        return false;
                    }
                },
                None => {},
            }
            k += 1;
        }
        proof {
            assert forall|id: i64| #[trigger] registry.contains_key(id) implies registry[id].message_count
                + 2 * n <= usize::MAX by {
                assert(ids@.to_set().contains(id));
                let j = choose|j: int| 0 <= j < ids@.len() && ids@[j] == id;
                assert(registry[ids[j]].message_count + 2 * n <= usize::MAX);
            }
        }
        true
    }

    /// A snapshot of the registry: every discovered chat once, the one seen
    /// latest first; of two chats last seen at the same date the one with
    /// the lower id comes first.
    pub fn get_discovered_chats(&self) -> (chats: Vec<&DiscoveredChat>)
        ensures
            is_snapshot(chat_views(chats@), self@.registry),
            chat_views(chats@) == snapshot_of(self@.registry),
            registry_wf(self@.registry),
    {
        proof {
            use_type_invariant(self);
        }
        let ids = chat_ids(&self.discovered_chats);
        let ghost registry = self@.registry;
        let mut chats: Vec<&DiscoveredChat> = Vec::new();
        let mut k: usize = 0;
        while k < ids.len()
            invariant
                k <= ids.len(),
                registry == registry_view(self.discovered_chats@),
                registry_wf(registry),
                ids@.to_set() == self.discovered_chats@.dom(),
                ids@.no_duplicates(),
                chats.len() == k,
                in_order(chat_views(chats@)),
                forall|i: int|
                    0 <= i < chats.len() ==> registry.contains_key(
                        (#[trigger] chat_views(chats@)[i]).chat.id,
                    ) && registry[chat_views(chats@)[i].chat.id] == chat_views(chats@)[i],
                forall|i: int|
                    0 <= i < chats.len() ==> ids@.take(k as int).contains(
                        (#[trigger] chat_views(chats@)[i]).chat.id,
                    ),
            decreases ids.len() - k,
        {
            let id: i64 = ids[k];
            assert(ids@.to_set().contains(id));
            match self.discovered_chats.get(&id) {
                Some(entry) => {
                    let ghost old_views = chat_views(chats@);
                    assert(registry.contains_key(id));
                    assert(entry@ == registry[id]);
                    assert(entry_wf(id, entry@));
                    assert forall|i: int| 0 <= i < old_views.len() implies (
                    #[trigger] old_views[i]).chat.id != id by {
                        if old_views[i].chat.id == id {
                            let j = choose|j: int|
                                0 <= j < k && ids@.take(k as int)[j] == old_views[i].chat.id;
                            assert(ids@[j] == ids@[k as int]);
                        }
                    }
                    let pos = place(&mut chats, entry);
                    let ghost new_views = chat_views(chats@);
                    assert(new_views.len() == old_views.len() + 1);
                    assert forall|i: int| 0 <= i < new_views.len() implies registry.contains_key(
                        (#[trigger] new_views[i]).chat.id,
                    ) && registry[new_views[i].chat.id] == new_views[i] && ids@.take(
                        k + 1,
                    ).contains(new_views[i].chat.id) by {
                        if i == pos {
                            assert(ids@.take(k + 1)[k as int] == id);
                        } else {
                            let o = if i < pos {
                                i
                            } else {
                                i - 1
                            };
                            assert(new_views[i] == old_views[o]);
                            let j = choose|j: int|
                                0 <= j < k && ids@.take(k as int)[j] == old_views[o].chat.id;
                            assert(ids@.take(k + 1)[j] == old_views[o].chat.id);
                        }
                    }
                },
                None => {
                    // Every id that was collected has its entry.
                    assert(self.discovered_chats@.contains_key(id));
                },
            }
            k += 1;
        }
        proof {
            assert(registry.dom() =~= self.discovered_chats@.dom());
            ids@.unique_seq_to_set();
            lemma_snapshot_is_whole(chat_views(chats@), registry);
            assert(is_snapshot(chat_views(chats@), registry));
            law_snapshot_is_unique(chat_views(chats@), snapshot_of(registry), registry);
        }
        chats
    }
}

impl Default for UpdateProcessor {
    fn default() -> (processor: Self)
        ensures
            processor@ == ProcessorView::initial(),
    {
        UpdateProcessor::new()
    }
}

} // verus!
