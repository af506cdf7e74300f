//! What holds of the processor over whole histories of updates.

use super::registry::{
    later, lemma_update_keeps_wf, registry_after_edit, registry_after_post,
    registry_after_update, registry_wf, ProcessorView,
};
use super::types::{DiscoveredChatView, UpdateView};
use vstd::prelude::*;

verus! {

/// All updates of a sequence of batches, in the order of their arrival.
pub open spec fn all_updates(batches: Seq<Seq<UpdateView>>) -> Seq<UpdateView>
    decreases batches.len(),
{
    if batches.len() == 0 {
        Seq::empty()
    } else {
        all_updates(batches.drop_last()) + batches.last()
    }
}

/// Whether `id` is the highest update id among `updates`.
pub open spec fn is_highest_id(updates: Seq<UpdateView>, id: int) -> bool {
    &&& exists|i: int| 0 <= i < updates.len() && (#[trigger] updates[i]).update_id == id
    &&& forall|i: int| 0 <= i < updates.len() ==> (#[trigger] updates[i]).update_id <= id
}

/// How many messages and channel posts of the chat `id` an update holds.
pub open spec fn posts_of(update: UpdateView, id: i64) -> nat {
    let in_message: nat = match update.message {
        Some(m) => if m.chat.id == id {
            1
        } else {
            0
        },
        None => 0,
    };
    let in_post: nat = match update.channel_post {
        Some(p) => if p.chat.id == id {
            1
        } else {
            0
        },
        None => 0,
    };
    in_message + in_post
}

/// How many messages and channel posts of the chat `id` a sequence of
/// updates holds.
pub open spec fn posts_in(updates: Seq<UpdateView>, id: i64) -> nat
    decreases updates.len(),
{
    if updates.len() == 0 {
        0
    } else {
        posts_in(updates.drop_last(), id) + posts_of(updates.last(), id)
    }
}

/// The message count that a registry holds for the chat `id`; 0 for a chat
/// without an entry.
pub open spec fn count_of(registry: Map<i64, DiscoveredChatView>, id: i64) -> nat {
    if registry.contains_key(id) {
        registry[id].message_count
    } else {
        0
    }
}

/// Processing one sequence of updates and then another is processing the
/// two in a row.
pub proof fn lemma_after_updates_in_a_row(
    state: ProcessorView,
    first: Seq<UpdateView>,
    second: Seq<UpdateView>,
)
    ensures
        state.after_updates(first + second) == state.after_updates(first).after_updates(second),
    decreases second.len(),
{
    if second.len() == 0 {
        assert(first + second =~= first);
    } else {
        lemma_after_updates_in_a_row(state, first, second.drop_last());
        assert((first + second).drop_last() =~= first + second.drop_last());
        assert((first + second).last() == second.last());
    }
}

/// Batch by batch or all at once: the processor ends in the same state.
pub proof fn lemma_batches_are_one_sequence(state: ProcessorView, batches: Seq<Seq<UpdateView>>)
    ensures
        state.after_batches(batches) == state.after_updates(all_updates(batches)),
    decreases batches.len(),
{
    if batches.len() > 0 {
        lemma_batches_are_one_sequence(state, batches.drop_last());
        lemma_after_updates_in_a_row(state, all_updates(batches.drop_last()), batches.last());
    }
}

/// The watermark never falls, no update's id lies above it afterwards, and
/// it is the old watermark or the id of one of the updates.
pub proof fn lemma_watermark(state: ProcessorView, updates: Seq<UpdateView>)
    ensures
        state.after_updates(updates).watermark >= state.watermark,
        forall|i: int|
            0 <= i < updates.len() ==> (#[trigger] updates[i]).update_id <= state.after_updates(
                updates,
            ).watermark,
        state.after_updates(updates).watermark == state.watermark || exists|i: int|
            0 <= i < updates.len() && (#[trigger] updates[i]).update_id == state.after_updates(
                updates,
            ).watermark,
    decreases updates.len(),
{
    if updates.len() > 0 {
        let front = updates.drop_last();
        lemma_watermark(state, front);
        let mid = state.after_updates(front).watermark;
        let end = state.after_updates(updates).watermark;
        assert(end == later(updates.last().update_id, mid));
        assert forall|i: int| 0 <= i < updates.len() implies (#[trigger] updates[i]).update_id
            <= end by {
            if i < front.len() {
                assert(front[i] == updates[i]);
            }
        }
        if end != state.watermark {
            if end == updates.last().update_id {
                assert(updates[updates.len() - 1].update_id == end);
            } else {
                let i = choose|i: int| 0 <= i < front.len() && (#[trigger] front[i]).update_id == mid;
                assert(updates[i].update_id == end);
            }
        }
    }
}

/// After any batches, in any order of ids and with any repetitions, the
/// watermark of a processor that started fresh is the highest update id
/// ever submitted, provided that an update with an id of 0 or more was
/// among them (a fresh processor's watermark is 0).
pub proof fn law_watermark_is_highest_id(batches: Seq<Seq<UpdateView>>)
    requires
        exists|i: int|
            0 <= i < all_updates(batches).len() && (#[trigger] all_updates(batches)[i]).update_id
                >= 0,
    ensures
        is_highest_id(
            all_updates(batches),
            ProcessorView::initial().after_batches(batches).watermark,
        ),
{
    let updates = all_updates(batches);
    lemma_batches_are_one_sequence(ProcessorView::initial(), batches);
    lemma_watermark(ProcessorView::initial(), updates);
    let end = ProcessorView::initial().after_updates(updates).watermark;
    let i = choose|i: int| 0 <= i < updates.len() && (#[trigger] updates[i]).update_id >= 0;
    if end == 0 {
        assert(updates[i].update_id == 0);
    }
}

/// One update adds to a chat's message count the number of messages and
/// channel posts that it holds for the chat, and gives the chat an entry if
/// that number is not 0; it takes no entry away.
pub proof fn lemma_update_counts_posts(
    registry: Map<i64, DiscoveredChatView>,
    update: UpdateView,
    id: i64,
)
    ensures
        count_of(registry_after_update(registry, update), id) == count_of(registry, id)
            + posts_of(update, id),
        registry_after_update(registry, update).contains_key(id) <==> registry.contains_key(id)
            || posts_of(update, id) > 0,
{
    let after_message = match update.message {
        Some(m) => registry_after_post(registry, m.chat, m.date, m.message_thread_id),
        None => registry,
    };
    let after_post = match update.channel_post {
        Some(p) => registry_after_post(after_message, p.chat, p.date, None),
        None => after_message,
    };
    let after = match update.edited_message {
        Some(e) => registry_after_edit(after_post, e.chat.id, e.date),
        None => after_post,
    };
    assert(after == registry_after_update(registry, update));
    assert(count_of(after, id) == count_of(after_post, id));
    assert(after.contains_key(id) == after_post.contains_key(id));
}

/// A sequence of updates adds to a chat's message count the number of
/// messages and channel posts that it holds for the chat.
pub proof fn lemma_updates_count_posts(state: ProcessorView, updates: Seq<UpdateView>, id: i64)
    ensures
        count_of(state.after_updates(updates).registry, id) == count_of(state.registry, id)
            + posts_in(updates, id),
        state.after_updates(updates).registry.contains_key(id) <==> state.registry.contains_key(
            id,
        ) || posts_in(updates, id) > 0,
    decreases updates.len(),
{
    if updates.len() > 0 {
        lemma_updates_count_posts(state, updates.drop_last(), id);
        lemma_update_counts_posts(
            state.after_updates(updates.drop_last()).registry,
            updates.last(),
            id,
        );
    }
}

/// After any batches, a processor that started fresh holds for every chat
/// the number of messages and channel posts submitted for it as that
/// chat's message count, whatever the update ids were; a chat for which
/// none was submitted has no entry.
pub proof fn law_message_count_is_number_submitted(batches: Seq<Seq<UpdateView>>, id: i64)
    ensures
        ProcessorView::initial().after_batches(batches).registry.contains_key(id) <==> posts_in(
            all_updates(batches),
            id,
        ) > 0,
        posts_in(all_updates(batches), id) > 0 ==> ProcessorView::initial().after_batches(
            batches,
        ).registry[id].message_count == posts_in(all_updates(batches), id),
{
    lemma_batches_are_one_sequence(ProcessorView::initial(), batches);
    lemma_updates_count_posts(ProcessorView::initial(), all_updates(batches), id);
}

/// An update that holds neither a message nor a channel post gives no chat
/// an entry and takes none away; if it is an edit in a chat without an
/// entry, the registry stays as it is.
pub proof fn law_edit_creates_no_entry(state: ProcessorView, update: UpdateView)
    requires
        update.message is None,
        update.channel_post is None,
    ensures
        state.after_update(update).registry.dom() == state.registry.dom(),
        state.after_update(update).registry.dom().len() == state.registry.dom().len(),
        (update.edited_message matches Some(e) && !state.registry.contains_key(e.chat.id))
            ==> state.after_update(update).registry == state.registry,
{
    assert(state.after_update(update).registry.dom() =~= state.registry.dom());
}

/// Whatever updates a processor is given, its registry stays well-formed:
/// every entry stands under its chat's id, no topic has counted more
/// messages than its chat, and no thread id occurs in two topics of a chat.
pub proof fn law_registry_stays_well_formed(state: ProcessorView, updates: Seq<UpdateView>)
    requires
        registry_wf(state.registry),
    ensures
        registry_wf(state.after_updates(updates).registry),
    decreases updates.len(),
{
    if updates.len() > 0 {
        law_registry_stays_well_formed(state, updates.drop_last());
        lemma_update_keeps_wf(state.after_updates(updates.drop_last()).registry, updates.last());
    }
}

/// No update lowers a message count or the date a chat was last seen at,
/// and none takes an entry away.
pub proof fn law_counts_and_dates_never_fall(
    registry: Map<i64, DiscoveredChatView>,
    update: UpdateView,
    id: i64,
)
    requires
        registry.contains_key(id),
    ensures
        registry_after_update(registry, update).contains_key(id),
        registry_after_update(registry, update)[id].message_count >= registry[id].message_count,
        registry_after_update(registry, update)[id].last_seen >= registry[id].last_seen,
        registry_after_update(registry, update)[id].chat == registry[id].chat,
{
    let after_message = match update.message {
        Some(m) => registry_after_post(registry, m.chat, m.date, m.message_thread_id),
        None => registry,
    };
    let after_post = match update.channel_post {
        Some(p) => registry_after_post(after_message, p.chat, p.date, None),
        None => after_message,
    };
    assert(after_message.contains_key(id));
    assert(after_post.contains_key(id));
}

} // verus!
