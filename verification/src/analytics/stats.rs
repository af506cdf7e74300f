//! Totals, a ranking and two distributions, computed from a snapshot of the
//! discovered chats.

use crate::telegram::types::{chat_views, DiscoveredChat, DiscoveredChatView};
use crate::time::hour_bucket;
use vstd::prelude::*;

verus! {

/// The sum of the message counts of `chats`.
pub open spec fn total_messages(chats: Seq<DiscoveredChatView>) -> nat
    decreases chats.len(),
{
    if chats.len() == 0 {
        0
    } else {
        total_messages(chats.drop_last()) + chats.last().message_count
    }
}

/// The number of topics of `chats`, all chats together.
pub open spec fn total_topics(chats: Seq<DiscoveredChatView>) -> nat
    decreases chats.len(),
{
    if chats.len() == 0 {
        0
    } else {
        total_topics(chats.drop_last()) + chats.last().topics.len()
    }
}

/// For each chat its display name and its message count, in the order of
/// `chats`.
pub open spec fn named_counts(chats: Seq<DiscoveredChatView>) -> Seq<(Seq<char>, nat)> {
    Seq::new(chats.len(), |i: int| (chats[i].chat.display_name(), chats[i].message_count))
}

/// The sum of the counts of `entries`.
pub open spec fn sum_counts(entries: Seq<(Seq<char>, nat)>) -> nat
    decreases entries.len(),
{
    if entries.len() == 0 {
        0
    } else {
        sum_counts(entries.drop_last()) + entries.last().1
    }
}

/// The entries of `entries` whose count is `count`, in their order.
pub open spec fn with_count(entries: Seq<(Seq<char>, nat)>, count: nat) -> Seq<(Seq<char>, nat)>
    decreases entries.len(),
{
    if entries.len() == 0 {
        Seq::empty()
    } else if entries.last().1 == count {
        with_count(entries.drop_last(), count).push(entries.last())
    } else {
        with_count(entries.drop_last(), count)
    }
}

/// Whether no entry has a higher count than one before it.
pub open spec fn is_descending(entries: Seq<(Seq<char>, nat)>) -> bool {
    forall|i: int, j: int|
        0 <= i < j < entries.len() ==> (#[trigger] entries[i]).1 >= (#[trigger] entries[j]).1
}

/// Whether `ranked` is `entries` sorted by count, highest first, with
/// entries of equal count in the order they have in `entries`.
pub open spec fn is_ranking(ranked: Seq<(Seq<char>, nat)>, entries: Seq<(Seq<char>, nat)>) -> bool {
    &&& ranked.len() == entries.len()
    &&& is_descending(ranked)
    &&& forall|count: nat| #[trigger] with_count(ranked, count) == with_count(entries, count)
}

/// Each chat beside the hour of the day under which its activity is
/// counted: the hour, in local time, of the date it was last seen at.
pub open spec fn with_hours(chats: Seq<DiscoveredChatView>, hours: Seq<int>) -> Seq<
    (DiscoveredChatView, int),
> {
    Seq::new(chats.len(), |i: int| (chats[i], hours[i]))
}

/// Whether `hours` are hours of the day, one for each of `n` chats.
pub open spec fn are_hours(hours: Seq<int>, n: nat) -> bool {
    &&& hours.len() == n
    &&& forall|i: int| 0 <= i < hours.len() ==> 0 <= #[trigger] hours[i] < 24
}

/// Whether the activity of one of the chats is counted under the hour
/// `hour`.
pub open spec fn hour_used(timed: Seq<(DiscoveredChatView, int)>, hour: int) -> bool {
    exists|i: int| 0 <= i < timed.len() && (#[trigger] timed[i]).1 == hour
}

/// The messages counted under the hour `hour`: the whole message count of
/// each chat that stands under that hour.
pub open spec fn hour_total(timed: Seq<(DiscoveredChatView, int)>, hour: int) -> nat
    decreases timed.len(),
{
    if timed.len() == 0 {
        0
    } else if timed.last().1 == hour {
        hour_total(timed.drop_last(), hour) + timed.last().0.message_count
    } else {
        hour_total(timed.drop_last(), hour)
    }
}

/// The messages counted under the hours before `hour`.
pub open spec fn messages_before(timed: Seq<(DiscoveredChatView, int)>, hour: int) -> nat
    decreases timed.len(),
{
    if timed.len() == 0 {
        0
    } else if timed.last().1 < hour {
        messages_before(timed.drop_last(), hour) + timed.last().0.message_count
    } else {
        messages_before(timed.drop_last(), hour)
    }
}

/// The sum of the counts of `buckets`.
pub open spec fn sum_buckets(buckets: Seq<(int, nat)>) -> nat
    decreases buckets.len(),
{
    if buckets.len() == 0 {
        0
    } else {
        sum_buckets(buckets.drop_last()) + buckets.last().1
    }
}

/// Whether `buckets` is the hourly distribution of the chats: one bucket
/// for each hour that is in use, with its total, by ascending hour.
pub open spec fn is_hourly_distribution(
    buckets: Seq<(int, nat)>,
    timed: Seq<(DiscoveredChatView, int)>,
) -> bool {
    &&& forall|i: int, j: int|
        0 <= i < j < buckets.len() ==> (#[trigger] buckets[i]).0 < (#[trigger] buckets[j]).0
    &&& forall|i: int|
        0 <= i < buckets.len() ==> hour_used(timed, (#[trigger] buckets[i]).0) && buckets[i].1
            == hour_total(timed, buckets[i].0)
    &&& forall|hour: int| #[trigger]
        hour_used(timed, hour) ==> exists|i: int|
            0 <= i < buckets.len() && (#[trigger] buckets[i]).0 == hour
}

/// The number of `chats` whose kind is `kind`.
pub open spec fn kind_count(chats: Seq<DiscoveredChatView>, kind: Seq<char>) -> nat
    decreases chats.len(),
{
    if chats.len() == 0 {
        0
    } else if chats.last().chat.chat_type == kind {
        kind_count(chats.drop_last(), kind) + 1
    } else {
        kind_count(chats.drop_last(), kind)
    }
}

/// Whether `kinds` is the distribution of `chats` over the chat kinds: each
/// kind that occurs stands once, with the number of chats of that kind.
pub open spec fn is_kind_distribution(
    kinds: Seq<(Seq<char>, nat)>,
    chats: Seq<DiscoveredChatView>,
) -> bool {
    &&& forall|i: int, j: int|
        0 <= i < j < kinds.len() ==> (#[trigger] kinds[i]).0 != (#[trigger] kinds[j]).0
    &&& forall|i: int|
        0 <= i < kinds.len() ==> (#[trigger] kinds[i]).1 == kind_count(chats, kinds[i].0)
            && kinds[i].1 > 0
    &&& forall|k: int|
        0 <= k < chats.len() ==> exists|i: int|
            0 <= i < kinds.len() && (#[trigger] kinds[i]).0 == (#[trigger] chats[k]).chat.chat_type
}

/// The first `limit` items of a list, or all of them if there are fewer.
pub open spec fn first_of<A>(items: Seq<A>, limit: nat) -> Seq<A> {
    if limit <= items.len() {
        items.take(limit as int)
    } else {
        items
    }
}

/// The first none of a list are none, and the first so many as the list
/// has, or more, are the whole list.
pub proof fn law_first_of_a_list<A>(items: Seq<A>, limit: nat)
    ensures
        first_of(items, 0) == Seq::<A>::empty(),
        limit >= items.len() ==> first_of(items, limit) == items,
        first_of(items, limit).len() == if limit <= items.len() {
            limit
        } else {
            items.len()
        },
{
    assert(items.take(0) =~= Seq::<A>::empty());
    assert(items.take(items.len() as int) =~= items);
}

/// Statistics that describe some chats list them by descending count; the
/// counts listed sum to the total, which is the sum of the chats' message
/// counts; and so do the counts of the hourly buckets, whose hours are
/// hours of the day.
pub proof fn law_totals_agree(
    stats: StatisticsView,
    chats: Seq<DiscoveredChatView>,
    hours: Seq<int>,
)
    requires
        stats.describes(chats, hours),
    ensures
        stats.total_messages == sum_counts(stats.messages_per_chat),
        stats.total_messages == total_messages(chats),
        stats.total_messages == sum_buckets(stats.hourly_distribution),
        is_descending(stats.messages_per_chat),
        stats.messages_per_chat.len() == chats.len(),
        forall|i: int|
            0 <= i < stats.hourly_distribution.len() ==> 0 <= (
            #[trigger] stats.hourly_distribution[i]).0 < 24,
{
    let timed = with_hours(chats, hours);
    assert forall|i: int| 0 <= i < stats.hourly_distribution.len() implies 0 <= (
    #[trigger] stats.hourly_distribution[i]).0 < 24 by {
        let hour = stats.hourly_distribution[i].0;
        assert(hour_used(timed, hour));
        let w = choose|w: int| 0 <= w < timed.len() && (#[trigger] timed[w]).1 == hour;
        assert(hours[w] == hour);
    }
}

/// What a list of names with counts says, as plain values.
pub open spec fn named_view(entries: Seq<(String, usize)>) -> Seq<(Seq<char>, nat)> {
    Seq::new(entries.len(), |i: int| (entries[i].0@, entries[i].1 as nat))
}

/// What a list of hours with counts says, as plain values.
pub open spec fn hourly_view(buckets: Seq<(u32, usize)>) -> Seq<(int, nat)> {
    Seq::new(buckets.len(), |i: int| (buckets[i].0 as int, buckets[i].1 as nat))
}

/// What [`Statistics`] say, as plain values.
pub struct StatisticsView {
    pub total_messages: nat,
    pub total_chats: nat,
    pub total_topics: nat,
    pub messages_per_chat: Seq<(Seq<char>, nat)>,
    pub hourly_distribution: Seq<(int, nat)>,
    pub chat_type_distribution: Seq<(Seq<char>, nat)>,
}

impl StatisticsView {
    /// Whether these are the statistics of `chats`, where `hours` gives for
    /// each chat the hour of the day, in local time, that it was last seen
    /// at.
    pub open spec fn describes(self, chats: Seq<DiscoveredChatView>, hours: Seq<int>) -> bool {
        &&& are_hours(hours, chats.len())
        &&& self.total_messages == total_messages(chats)
        &&& self.total_chats == chats.len()
        &&& self.total_topics == total_topics(chats)
        &&& is_ranking(self.messages_per_chat, named_counts(chats))
        &&& sum_counts(self.messages_per_chat) == self.total_messages
        &&& is_hourly_distribution(self.hourly_distribution, with_hours(chats, hours))
        &&& sum_buckets(self.hourly_distribution) == self.total_messages
        &&& is_kind_distribution(self.chat_type_distribution, chats)
    }

    /// Whether these are the statistics of `chats` in some time zone: under
    /// some hour of the day for each chat.
    pub open spec fn describes_chats(self, chats: Seq<DiscoveredChatView>) -> bool {
        exists|hours: Seq<int>| self.describes(chats, hours)
    }

    /// The number of chats of the kind `kind`; 0 for a kind that does not
    /// stand in the distribution.
    pub open spec fn kind_total(self, kind: Seq<char>) -> nat
        decreases self.chat_type_distribution.len(),
    {
        kind_total_in(self.chat_type_distribution, kind)
    }
}

/// The count that stands with `kind` in `kinds`; 0 if it stands nowhere.
pub open spec fn kind_total_in(kinds: Seq<(Seq<char>, nat)>, kind: Seq<char>) -> nat
    decreases kinds.len(),
{
    if kinds.len() == 0 {
        0
    } else if kinds[0].0 == kind {
        kinds[0].1
    } else {
        kind_total_in(kinds.drop_first(), kind)
    }
}

/// The message counts of the first chats of a list sum to no more than
/// those of the whole list, and so do the topics.
pub proof fn lemma_totals_grow(chats: Seq<DiscoveredChatView>, n: int)
    requires
        0 <= n <= chats.len(),
    ensures
        total_messages(chats.take(n)) <= total_messages(chats),
        total_topics(chats.take(n)) <= total_topics(chats),
    decreases chats.len(),
{
    if n == chats.len() {
        assert(chats.take(n) =~= chats);
    } else {
        lemma_totals_grow(chats.drop_last(), n);
        assert(chats.drop_last().take(n) =~= chats.take(n));
    }
}

/// No hour counts more messages than all chats have together.
pub proof fn lemma_hour_total_bounded(
    chats: Seq<DiscoveredChatView>,
    hours: Seq<int>,
    hour: int,
    n: int,
)
    requires
        0 <= n <= chats.len(),
    ensures
        hour_total(with_hours(chats, hours).take(n), hour) <= total_messages(chats.take(n)),
    decreases n,
{
    let timed = with_hours(chats, hours);
    if n > 0 {
        lemma_hour_total_bounded(chats, hours, hour, n - 1);
        assert(timed.take(n).drop_last() =~= timed.take(n - 1));
        assert(chats.take(n).drop_last() =~= chats.take(n - 1));
        assert(timed.take(n).last().0 == chats.take(n).last());
    }
}

/// The messages under the hours up to and with `hour` are those under the
/// hours before it and those under `hour`.
pub proof fn lemma_messages_before_next(timed: Seq<(DiscoveredChatView, int)>, hour: int)
    ensures
        messages_before(timed, hour + 1) == messages_before(timed, hour) + hour_total(timed, hour),
    decreases timed.len(),
{
    if timed.len() > 0 {
        lemma_messages_before_next(timed.drop_last(), hour);
    }
}

/// An hour that is not in use counts no message.
pub proof fn lemma_unused_hour_is_empty(timed: Seq<(DiscoveredChatView, int)>, hour: int)
    requires
        !hour_used(timed, hour),
    ensures
        hour_total(timed, hour) == 0,
    decreases timed.len(),
{
    if timed.len() > 0 {
        let front = timed.drop_last();
        if hour_used(front, hour) {
            let w = choose|w: int| 0 <= w < front.len() && (#[trigger] front[w]).1 == hour;
            assert(timed[w].1 == hour);
        }
        lemma_unused_hour_is_empty(front, hour);
        assert(timed[timed.len() - 1].1 != hour);
    }
}

/// Before the first hour that any chat stands under, no message is
/// counted; and before an hour that lies behind them all, all are.
pub proof fn lemma_messages_before_ends(
    chats: Seq<DiscoveredChatView>,
    hours: Seq<int>,
    first: int,
    behind: int,
)
    requires
        hours.len() == chats.len(),
        forall|i: int| 0 <= i < hours.len() ==> first <= #[trigger] hours[i] < behind,
    ensures
        messages_before(with_hours(chats, hours), first) == 0,
        messages_before(with_hours(chats, hours), behind) == total_messages(chats),
    decreases chats.len(),
{
    let timed = with_hours(chats, hours);
    if chats.len() > 0 {
        lemma_messages_before_ends(chats.drop_last(), hours.drop_last(), first, behind);
        assert(timed.drop_last() =~= with_hours(chats.drop_last(), hours.drop_last()));
        assert(timed.last() == (chats.last(), hours[hours.len() - 1]));
    }
}

/// No kind has more chats than there are.
pub proof fn lemma_kind_count_bounded(chats: Seq<DiscoveredChatView>, kind: Seq<char>)
    ensures
        kind_count(chats, kind) <= chats.len(),
    decreases chats.len(),
{
    if chats.len() > 0 {
        lemma_kind_count_bounded(chats.drop_last(), kind);
    }
}

/// An entry put into a list adds its count to the sum.
pub proof fn lemma_sum_counts_insert(entries: Seq<(Seq<char>, nat)>, at: int, entry: (Seq<char>, nat))
    requires
        0 <= at <= entries.len(),
    ensures
        sum_counts(entries.insert(at, entry)) == sum_counts(entries) + entry.1,
    decreases entries.len() - at,
{
    let longer = entries.insert(at, entry);
    if at == entries.len() {
        assert(longer.drop_last() =~= entries);
    } else {
        lemma_sum_counts_insert(entries.drop_last(), at, entry);
        assert(longer.drop_last() =~= entries.drop_last().insert(at, entry));
    }
}

/// An entry put into a list joins the entries of its own count behind all
/// of them, if none of that count stands behind it, and leaves the entries
/// of every other count as they were.
pub proof fn lemma_with_count_insert(
    entries: Seq<(Seq<char>, nat)>,
    at: int,
    entry: (Seq<char>, nat),
    count: nat,
)
    requires
        0 <= at <= entries.len(),
        forall|i: int| at <= i < entries.len() ==> (#[trigger] entries[i]).1 != entry.1,
    ensures
        with_count(entries.insert(at, entry), count) == if entry.1 == count {
            with_count(entries, count).push(entry)
        } else {
            with_count(entries, count)
        },
    decreases entries.len() - at,
{
    let longer = entries.insert(at, entry);
    if at == entries.len() {
        assert(longer.drop_last() =~= entries);
    } else {
        lemma_with_count_insert(entries.drop_last(), at, entry, count);
        assert(longer.drop_last() =~= entries.drop_last().insert(at, entry));
        assert(longer.last() == entries.last());
        assert(entries[entries.len() - 1].1 != entry.1);
    }
}

/// The message count and the number of topics of all `chats` together.
fn totals(chats: &[&DiscoveredChat]) -> (sums: (usize, usize))
    requires
        total_messages(chat_views(chats@)) <= usize::MAX,
        total_topics(chat_views(chats@)) <= usize::MAX,
    ensures
        sums.0 == total_messages(chat_views(chats@)),
        sums.1 == total_topics(chat_views(chats@)),
{
    let ghost views = chat_views(chats@);
    let mut messages: usize = 0;
    let mut topics: usize = 0;
    let mut i: usize = 0;
    assert(views.take(0) =~= Seq::empty());
    while i < chats.len()
        invariant
            i <= chats.len(),
            views == chat_views(chats@),
            total_messages(views) <= usize::MAX,
            total_topics(views) <= usize::MAX,
            messages == total_messages(views.take(i as int)),
            topics == total_topics(views.take(i as int)),
        decreases chats.len() - i,
    {
        proof {
            lemma_totals_grow(views, i + 1);
            assert(views.take(i + 1).drop_last() =~= views.take(i as int));
            assert(views.take(i + 1).last() == chats[i as int]@);
            assert(chats[i as int]@.topics.len() == chats[i as int].topics.len());
        }
        messages = messages + chats[i].message_count;
        topics = topics + chats[i].topics.len();
        i += 1;
    }
    assert(views.take(chats.len() as int) =~= views);
    (messages, topics)
}

/// The chats by name with their message counts, the highest count first;
/// chats of equal count keep their order.
fn ranking(chats: &[&DiscoveredChat]) -> (ranked: Vec<(String, usize)>)
    ensures
        is_ranking(named_view(ranked@), named_counts(chat_views(chats@))),
        sum_counts(named_view(ranked@)) == total_messages(chat_views(chats@)),
{
    let ghost views = chat_views(chats@);
    let ghost entries = named_counts(views);
    let mut ranked: Vec<(String, usize)> = Vec::new();
    let mut i: usize = 0;
    assert(views.take(0) =~= Seq::empty());
    assert(entries.take(0) =~= Seq::empty());
    assert(named_view(ranked@) =~= Seq::empty());
    while i < chats.len()
        invariant
            i <= chats.len(),
            views == chat_views(chats@),
            entries == named_counts(views),
            is_ranking(named_view(ranked@), entries.take(i as int)),
            sum_counts(named_view(ranked@)) == total_messages(views.take(i as int)),
        decreases chats.len() - i,
    {
        let name = chats[i].chat.display_name();
        let count: usize = chats[i].message_count;
        let ghost entry = (name@, count as nat);
        let ghost before = named_view(ranked@);
        assert(entry == entries[i as int]);
        let mut at: usize = 0;
        while at < ranked.len() && ranked[at].1 >= count
            invariant
                at <= ranked.len(),
                before == named_view(ranked@),
                forall|j: int| 0 <= j < at ==> (#[trigger] before[j]).1 >= count,
            decreases ranked.len() - at,
        {
            at += 1;
        }
        assert forall|j: int| at <= j < before.len() implies (#[trigger] before[j]).1 < count by {
            assert(before[at as int].1 < count);
            if j > at {
                assert(before[at as int].1 >= before[j].1);
            }
        }
        ranked.insert(at, (name, count));
        let ghost after = named_view(ranked@);
        proof {
            assert(after =~= before.insert(at as int, entry));
            assert(views.take(i + 1).drop_last() =~= views.take(i as int));
            assert(views.take(i + 1).last() == chats[i as int]@);
            assert(entries.take(i + 1).drop_last() =~= entries.take(i as int));
            assert(entries.take(i + 1).last() == entry);
            lemma_sum_counts_insert(before, at as int, entry);
            assert forall|c: nat| #[trigger]
                with_count(after, c) == with_count(entries.take(i + 1), c) by {
                lemma_with_count_insert(before, at as int, entry, c);
                assert(with_count(before, c) == with_count(entries.take(i as int), c));
            }
            assert forall|a: int, b: int| 0 <= a < b < after.len() implies (#[trigger] after[a]).1
                >= (#[trigger] after[b]).1 by {
                let oa = if a < at {
                    a
                } else {
                    a - 1
                };
                let ob = if b < at {
                    b
                } else {
                    b - 1
                };
                if a != at && b != at {
                    assert(after[a] == before[oa]);
                    assert(after[b] == before[ob]);
                } else if a == at {
                    assert(after[b] == before[ob]);
                } else {
                    assert(after[a] == before[oa]);
                }
            }
        }
        i += 1;
    }
    assert(views.take(chats.len() as int) =~= views);
    assert(entries.take(chats.len() as int) =~= entries);
    ranked
}

/// What a list of hours says, as plain values.
pub open spec fn hour_views(hours: Seq<u32>) -> Seq<int> {
    Seq::new(hours.len(), |i: int| hours[i] as int)
}

/// For each hour of the day under which a chat's activity is counted, the
/// messages counted under it; by ascending hour.
fn hourly(chats: &[&DiscoveredChat], hours: &[u32]) -> (buckets: Vec<(u32, usize)>)
    requires
        are_hours(hour_views(hours@), chats@.len()),
        total_messages(chat_views(chats@)) <= usize::MAX,
    ensures
        is_hourly_distribution(
            hourly_view(buckets@),
            with_hours(chat_views(chats@), hour_views(hours@)),
        ),
        sum_buckets(hourly_view(buckets@)) == total_messages(chat_views(chats@)),
{
    let ghost views = chat_views(chats@);
    let ghost timed = with_hours(views, hour_views(hours@));
    let mut totals: Vec<usize> = Vec::new();
    let mut used: Vec<bool> = Vec::new();
    let mut h: usize = 0;
    assert(timed.take(0) =~= Seq::empty());
    while h < 24
        invariant
            h <= 24,
            totals.len() == h,
            used.len() == h,
            forall|k: int| 0 <= k < h ==> totals[k] == 0 && !used[k],
        decreases 24 - h,
    {
        totals.push(0);
        used.push(false);
        h += 1;
    }
    let mut i: usize = 0;
    while i < chats.len()
        invariant
            i <= chats.len(),
            views == chat_views(chats@),
            timed == with_hours(views, hour_views(hours@)),
            are_hours(hour_views(hours@), chats@.len()),
            total_messages(views) <= usize::MAX,
            totals.len() == 24,
            used.len() == 24,
            forall|k: int|
                0 <= k < 24 ==> #[trigger] totals[k] == hour_total(timed.take(i as int), k),
            forall|k: int| 0 <= k < 24 ==> #[trigger] used[k] == hour_used(timed.take(i as int), k),
        decreases chats.len() - i,
    {
        assert(0 <= hour_views(hours@)[i as int] < 24);
        let hour = hours[i] as usize;
        let ghost shorter = timed.take(i as int);
        let ghost longer = timed.take(i + 1);
        proof {
            assert(longer.drop_last() =~= shorter);
            assert(longer.last() == (chats[i as int]@, hour as int));
            lemma_hour_total_bounded(views, hour_views(hours@), hour as int, i + 1);
            lemma_totals_grow(views, i + 1);
        }
        let sum: usize = totals[hour] + chats[i].message_count;
        totals.set(hour, sum);
        used.set(hour, true);
        proof {
            assert forall|k: int| 0 <= k < 24 implies #[trigger] used[k] == hour_used(longer, k) by {
                if hour_used(shorter, k) {
                    let w = choose|w: int| 0 <= w < shorter.len() && (#[trigger] shorter[w]).1 == k;
                    assert(longer[w].1 == k);
                }
                if k == hour {
                    assert(longer[i as int].1 == k);
                }
                if hour_used(longer, k) && k != hour {
                    let w = choose|w: int| 0 <= w < longer.len() && (#[trigger] longer[w]).1 == k;
                    assert(w < i);
                    assert(shorter[w].1 == k);
                }
            }
        }
        i += 1;
    }
    assert(timed.take(chats.len() as int) =~= timed);
    let mut buckets: Vec<(u32, usize)> = Vec::new();
    let mut hour: u32 = 0;
    proof {
        lemma_messages_before_ends(views, hour_views(hours@), 0, 24);
    }
    while hour < 24
        invariant
            hour <= 24,
            totals.len() == 24,
            used.len() == 24,
            forall|k: int| 0 <= k < 24 ==> #[trigger] totals[k] == hour_total(timed, k),
            forall|k: int| 0 <= k < 24 ==> #[trigger] used[k] == hour_used(timed, k),
            sum_buckets(hourly_view(buckets@)) == messages_before(timed, hour as int),
            forall|a: int|
                0 <= a < buckets.len() ==> 0 <= (#[trigger] hourly_view(buckets@)[a]).0 < hour,
            forall|a: int, b: int|
                0 <= a < b < buckets.len() ==> (#[trigger] hourly_view(buckets@)[a]).0 < (
                #[trigger] hourly_view(buckets@)[b]).0,
            forall|a: int|
                0 <= a < buckets.len() ==> hour_used(
                    timed,
                    (#[trigger] hourly_view(buckets@)[a]).0,
                ) && hourly_view(buckets@)[a].1 == hour_total(timed, hourly_view(buckets@)[a].0),
            forall|k: int|
                0 <= k < hour && #[trigger] hour_used(timed, k) ==> exists|a: int|
                    0 <= a < buckets.len() && (#[trigger] hourly_view(buckets@)[a]).0 == k,
        decreases 24 - hour,
    {
        let ghost before = hourly_view(buckets@);
        proof {
            lemma_messages_before_next(timed, hour as int);
        }
        if used[hour as usize] {
            buckets.push((hour, totals[hour as usize]));
            let ghost after = hourly_view(buckets@);
            assert(after =~= before.push((hour as int, totals[hour as int] as nat)));
            assert(after.drop_last() =~= before);
            assert forall|k: int| 0 <= k < hour + 1 && #[trigger] hour_used(timed, k) implies exists|
                a: int,
            |
                0 <= a < after.len() && (#[trigger] after[a]).0 == k by {
                if k < hour {
                    let a = choose|a: int| 0 <= a < before.len() && (#[trigger] before[a]).0 == k;
                    assert(after[a].0 == k);
                } else {
                    assert(after[after.len() - 1].0 == k);
                }
            }
        } else {
            proof {
                lemma_unused_hour_is_empty(timed, hour as int);
            }
        }
        hour += 1;
    }
    proof {
        let out = hourly_view(buckets@);
        assert forall|k: int| #[trigger] hour_used(timed, k) implies exists|a: int|
            0 <= a < out.len() && (#[trigger] out[a]).0 == k by {
            let w = choose|w: int| 0 <= w < timed.len() && (#[trigger] timed[w]).1 == k;
            assert(hour_views(hours@)[w] == k);
            assert(0 <= k < 24);
        }
    }
    buckets
}

/// The position of `kind` among `kinds`, if it stands there.
fn kind_position(kinds: &Vec<(String, usize)>, kind: &String) -> (at: Option<usize>)
    ensures
        at matches Some(i) ==> i < kinds.len() && kinds[i as int].0@ == kind@,
        at is None ==> forall|i: int| 0 <= i < kinds.len() ==> (#[trigger] kinds[i]).0@ != kind@,
{
    let mut i: usize = 0;
    while i < kinds.len()
        invariant
            i <= kinds.len(),
            forall|j: int| 0 <= j < i ==> (#[trigger] kinds[j]).0@ != kind@,
        decreases kinds.len() - i,
    {
        if kinds[i].0 == *kind {
            return Some(i);
        }
        i += 1;
    }
    None
}

/// For each chat kind that occurs among `chats`, the number of chats of
/// that kind.
fn by_kind(chats: &[&DiscoveredChat]) -> (kinds: Vec<(String, usize)>)
    ensures
        is_kind_distribution(named_view(kinds@), chat_views(chats@)),
{
    let ghost views = chat_views(chats@);
    let mut kinds: Vec<(String, usize)> = Vec::new();
    let mut i: usize = 0;
    assert(views.take(0) =~= Seq::empty());
    while i < chats.len()
        invariant
            i <= chats.len(),
            views == chat_views(chats@),
            is_kind_distribution(named_view(kinds@), views.take(i as int)),
        decreases chats.len() - i,
    {
        let ghost before = named_view(kinds@);
        let ghost shorter = views.take(i as int);
        let ghost longer = views.take(i + 1);
        let ghost kind = chats[i as int].chat.chat_type@;
        proof {
            assert(longer.drop_last() =~= shorter);
            assert(longer.last() == chats[i as int]@);
            assert(longer.last().chat.chat_type == kind);
        }
        match kind_position(&kinds, &chats[i].chat.chat_type) {
            Some(at) => {
                proof {
                    assert(before[at as int].0 == kind);
                    lemma_kind_count_bounded(shorter, kind);
                }
                let counted = (kinds[at].0.clone(), kinds[at].1 + 1);
                kinds.set(at, counted);
                let ghost after = named_view(kinds@);
                proof {
                    assert(after =~= before.update(at as int, (kind, (before[at as int].1 + 1) as nat)));
                    assert forall|a: int| 0 <= a < after.len() implies (#[trigger] after[a]).1
                        == kind_count(longer, after[a].0) && after[a].1 > 0 by {
                        if a != at {
                            assert(after[a] == before[a]);
                            assert(before[a].0 != before[at as int].0);
                        }
                    }
                    assert forall|k: int| 0 <= k < longer.len() implies exists|a: int|
                        0 <= a < after.len() && (#[trigger] after[a]).0 == (
                        #[trigger] longer[k]).chat.chat_type by {
                        if k < i {
                            assert(longer[k] == shorter[k]);
                            let a = choose|a: int|
                                0 <= a < before.len() && (#[trigger] before[a]).0
                                    == shorter[k].chat.chat_type;
                            assert(after[a].0 == before[a].0);
                        } else {
                            assert(after[at as int].0 == kind);
                        }
                    }
                    assert forall|a: int, b: int| 0 <= a < b < after.len() implies (
                    #[trigger] after[a]).0 != (#[trigger] after[b]).0 by {
                        assert(after[a].0 == before[a].0);
                        assert(after[b].0 == before[b].0);
                    }
                }
            },
            None => {
                kinds.push((chats[i].chat.chat_type.clone(), 1));
                let ghost after = named_view(kinds@);
                proof {
                    assert(after =~= before.push((kind, 1nat)));
                    assert(kind_count(shorter, kind) == 0) by {
                        lemma_kind_absent(shorter, kind, before);
                    }
                    assert forall|a: int| 0 <= a < after.len() implies (#[trigger] after[a]).1
                        == kind_count(longer, after[a].0) && after[a].1 > 0 by {
                        if a < before.len() {
                            assert(after[a] == before[a]);
                        }
                    }
                    assert forall|k: int| 0 <= k < longer.len() implies exists|a: int|
                        0 <= a < after.len() && (#[trigger] after[a]).0 == (
                        #[trigger] longer[k]).chat.chat_type by {
                        if k < i {
                            assert(longer[k] == shorter[k]);
                            let a = choose|a: int|
                                0 <= a < before.len() && (#[trigger] before[a]).0
                                    == shorter[k].chat.chat_type;
                            assert(after[a].0 == before[a].0);
                        } else {
                            assert(after[after.len() - 1].0 == kind);
                        }
                    }
                    assert forall|a: int, b: int| 0 <= a < b < after.len() implies (
                    #[trigger] after[a]).0 != (#[trigger] after[b]).0 by {
                        assert(after[a] == before[a]);
                        if b < before.len() {
                            assert(after[b] == before[b]);
                        }
                    }
                }
            },
        }
        i += 1;
    }
    assert(views.take(chats.len() as int) =~= views);
    kinds
}

/// A kind that stands nowhere in the distribution of `chats` is the kind of
/// none of them.
proof fn lemma_kind_absent(
    chats: Seq<DiscoveredChatView>,
    kind: Seq<char>,
    kinds: Seq<(Seq<char>, nat)>,
)
    requires
        is_kind_distribution(kinds, chats),
        forall|i: int| 0 <= i < kinds.len() ==> (#[trigger] kinds[i]).0 != kind,
    ensures
        kind_count(chats, kind) == 0,
    decreases chats.len(),
{
    if chats.len() > 0 {
        let front = chats.drop_last();
        assert forall|k: int| 0 <= k < chats.len() implies (#[trigger] chats[k]).chat.chat_type
            != kind by {
            let a = choose|a: int|
                0 <= a < kinds.len() && (#[trigger] kinds[a]).0 == chats[k].chat.chat_type;
        }
        lemma_no_chat_of_kind(chats, kind);
    }
}

/// Where no chat is of a kind, the kind counts no chat.
proof fn lemma_no_chat_of_kind(chats: Seq<DiscoveredChatView>, kind: Seq<char>)
    requires
        forall|k: int| 0 <= k < chats.len() ==> (#[trigger] chats[k]).chat.chat_type != kind,
    ensures
        kind_count(chats, kind) == 0,
    decreases chats.len(),
{
    if chats.len() > 0 {
        let front = chats.drop_last();
        assert forall|k: int| 0 <= k < front.len() implies (#[trigger] front[k]).chat.chat_type
            != kind by {
            assert(front[k] == chats[k]);
        }
        lemma_no_chat_of_kind(front, kind);
        assert(chats[chats.len() - 1].chat.chat_type != kind);
    }
}

/// Statistics over a snapshot of the discovered chats.
#[derive(Debug, Clone)]
pub struct Statistics {
    /// The messages of all chats together.
    pub total_messages: usize,
    /// The number of chats.
    pub total_chats: usize,
    /// The topics of all chats together.
    pub total_topics: usize,
    /// Each chat's name and message count, the highest count first.
    pub messages_per_chat: Vec<(String, usize)>,
    /// The messages counted under each hour of the day that is in use, by
    /// ascending hour. A chat's whole count stands under the hour it was
    /// last seen at.
    pub hourly_distribution: Vec<(u32, usize)>,
    /// The number of chats of each kind that occurs, each kind once.
    pub chat_type_distribution: Vec<(String, usize)>,
}

impl View for Statistics {
    type V = StatisticsView;

    open spec fn view(&self) -> StatisticsView {
        StatisticsView {
            total_messages: self.total_messages as nat,
            total_chats: self.total_chats as nat,
            total_topics: self.total_topics as nat,
            messages_per_chat: named_view(self.messages_per_chat@),
            hourly_distribution: hourly_view(self.hourly_distribution@),
            chat_type_distribution: named_view(self.chat_type_distribution@),
        }
    }
}

impl Statistics {
    /// The statistics of `chats`, where `hours` gives for each chat the hour
    /// of the day that it was last seen at. The sums must fit in `usize`.
    pub fn from_chats_with_hours(chats: &[&DiscoveredChat], hours: &[u32]) -> (stats: Self)
        requires
            are_hours(hour_views(hours@), chats@.len()),
            total_messages(chat_views(chats@)) <= usize::MAX,
            total_topics(chat_views(chats@)) <= usize::MAX,
        ensures
            stats@.describes(chat_views(chats@), hour_views(hours@)),
    {
        let (total_messages, total_topics) = totals(chats);
        Statistics {
            total_messages,
            total_chats: chats.len(),
            total_topics,
            messages_per_chat: ranking(chats),
            hourly_distribution: hourly(chats, hours),
            chat_type_distribution: by_kind(chats),
        }
    }

    /// The statistics of `chats`, each chat counted under the hour of the
    /// day that it was last seen at in local time. Which hour that is the
    /// machine's time zone decides; all else is as
    /// [`from_chats_with_hours`](Self::from_chats_with_hours) states it. The
    /// sums must fit in `usize`.
    pub fn from_chats(chats: &[&DiscoveredChat]) -> (stats: Self)
        requires
            total_messages(chat_views(chats@)) <= usize::MAX,
            total_topics(chat_views(chats@)) <= usize::MAX,
        ensures
            stats@.describes_chats(chat_views(chats@)),
    {
        let mut hours: Vec<u32> = Vec::new();
        let mut i: usize = 0;
        while i < chats.len()
            invariant
                i <= chats.len(),
                hours.len() == i,
                forall|k: int| 0 <= k < i ==> #[trigger] hours[k] < 24,
            decreases chats.len() - i,
        {
            hours.push(hour_bucket(chats[i].last_seen));
            i += 1;
        }
        let stats = Statistics::from_chats_with_hours(chats, hours.as_slice());
        assert(stats@.describes(chat_views(chats@), hour_views(hours@)));
        stats
    }

    /// Whether the message counts of `chats` and their numbers of topics
    /// each sum to a value that `usize` holds.
    pub fn fits(chats: &[&DiscoveredChat]) -> (fit: bool)
        ensures
            fit == (total_messages(chat_views(chats@)) <= usize::MAX && total_topics(
                chat_views(chats@),
            ) <= usize::MAX),
    {
        let ghost views = chat_views(chats@);
        let mut messages: usize = 0;
        let mut topics: usize = 0;
        let mut i: usize = 0;
        assert(views.take(0) =~= Seq::empty());
        while i < chats.len()
            invariant
                i <= chats.len(),
                views == chat_views(chats@),
                messages == total_messages(views.take(i as int)),
                topics == total_topics(views.take(i as int)),
            decreases chats.len() - i,
        {
            proof {
                lemma_totals_grow(views, i + 1);
                assert(views.take(i + 1).drop_last() =~= views.take(i as int));
                assert(views.take(i + 1).last() == chats[i as int]@);
                assert(chats[i as int]@.topics.len() == chats[i as int].topics.len());
            }
            match messages.checked_add(chats[i].message_count) {
                Some(sum) => {
                    messages = sum;
                },
                None => {
                    return false;
                },
            }
            match topics.checked_add(chats[i].topics.len()) {
                Some(sum) => {
                    topics = sum;
                },
                None => {
                    return false;
                },
            }
            i += 1;
        }
        assert(views.take(chats.len() as int) =~= views);
        true
    }

    /// The statistics of `chats`, or nothing if their sums do not fit in
    /// `usize`.
    pub fn try_from_chats(chats: &[&DiscoveredChat]) -> (stats: Option<Self>)
        ensures
            stats is Some <==> (total_messages(chat_views(chats@)) <= usize::MAX && total_topics(
                chat_views(chats@),
            ) <= usize::MAX),
            stats matches Some(s) ==> s@.describes_chats(chat_views(chats@)),
    {
        if Statistics::fits(chats) {
            Some(Statistics::from_chats(chats))
        } else {
            None
        }
    }

    /// The first `limit` entries of the ranking, or all of them if there
    /// are fewer.
    pub fn get_top_chats(&self, limit: usize) -> (top: &[(String, usize)])
        ensures
            top@ == first_of(self.messages_per_chat@, limit as nat),
    {
        let end: usize = if limit <= self.messages_per_chat.len() {
            limit
        } else {
            self.messages_per_chat.len()
        };
        assert(self.messages_per_chat@.take(self.messages_per_chat.len() as int)
            =~= self.messages_per_chat@);
        vstd::slice::slice_subrange(self.messages_per_chat.as_slice(), 0, end)
    }

    /// The number of chats of the kind `kind`.
    pub fn chat_type_count(&self, kind: &str) -> (count: usize)
        ensures
            count == self@.kind_total(kind@),
    {
        let wanted = kind.to_owned();
        let mut i: usize = 0;
        let ghost kinds = named_view(self.chat_type_distribution@);
        assert(kinds.skip(0) =~= kinds);
        while i < self.chat_type_distribution.len()
            invariant
                i <= self.chat_type_distribution.len(),
                wanted@ == kind@,
                kinds == named_view(self.chat_type_distribution@),
                kind_total_in(kinds, kind@) == kind_total_in(kinds.skip(i as int), kind@),
            decreases self.chat_type_distribution.len() - i,
        {
            proof {
                assert(kinds.skip(i as int).drop_first() =~= kinds.skip(i + 1));
                assert(kinds.skip(i as int)[0] == kinds[i as int]);
            }
            if self.chat_type_distribution[i].0 == wanted {
                return self.chat_type_distribution[i].1;
            }
            i += 1;
        }
        0
    }
}

} // verus!
