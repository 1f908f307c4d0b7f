//! Laws of event histories: order, uniqueness, origin and completeness.

use vstd::prelude::*;

use crate::events;
use crate::events::{EventView, MessageView};
use crate::text;

verus! {

/// The order of events is asymmetric, and two events that it does not tell
/// apart have the same time rank and the same message id.
pub proof fn event_order_is_strict(a: EventView, b: EventView)
    ensures
        !(events::event_before(a, b) && events::event_before(b, a)),
        !events::event_before(a, b) && !events::event_before(b, a) ==> events::time_rank(
            a.occurred_at,
        ) == events::time_rank(b.occurred_at) && a.message_id == b.message_id,
{
    let ra = events::time_rank(a.occurred_at);
    let rb = events::time_rank(b.occurred_at);
    text::text_order_is_strict(ra.2, rb.2);
    text::text_order_is_strict(rb.2, ra.2);
    text::text_order_is_strict(a.message_id, b.message_id);
    text::text_order_is_strict(b.message_id, a.message_id);
}

/// The order of events is transitive.
pub proof fn event_order_is_transitive(a: EventView, b: EventView, c: EventView)
    requires
        events::event_before(a, b),
        events::event_before(b, c),
    ensures
        events::event_before(a, c),
{
    let ra = events::time_rank(a.occurred_at);
    let rb = events::time_rank(b.occurred_at);
    let rc = events::time_rank(c.occurred_at);
    text::text_order_is_strict(ra.2, rb.2);
    text::text_order_is_strict(rb.2, rc.2);
    text::text_order_is_strict(ra.2, rc.2);
    if text::text_less(ra.2, rb.2) && text::text_less(rb.2, rc.2) {
        text::text_order_is_transitive(ra.2, rb.2, rc.2);
    }
    if text::text_less(a.message_id, b.message_id) && text::text_less(b.message_id, c.message_id) {
        text::text_order_is_transitive(a.message_id, b.message_id, c.message_id);
    }
}

/// No event of the list comes before one that stands earlier.
pub open spec fn in_order(list: Seq<EventView>) -> bool {
    forall|i: int, j: int|
        0 <= i < j < list.len() ==> !events::event_before(#[trigger] list[j], #[trigger] list[i])
}

proof fn lemma_insert(list: Seq<EventView>, event: EventView)
    ensures
        events::insert_event(list, event).len() == list.len() + 1,
        forall|x: EventView| #[trigger]
            events::insert_event(list, event).contains(x) <==> list.contains(x) || x == event,
        in_order(list) ==> in_order(events::insert_event(list, event)),
    decreases list.len(),
{
    let placed = events::insert_event(list, event);
    if list.len() > 0 && events::event_before(event, list.last()) {
        let front = list.drop_last();
        let inner = events::insert_event(front, event);
        lemma_insert(front, event);
        assert(placed == inner.push(list.last()));
        assert forall|x: EventView| #[trigger] placed.contains(x) <==> list.contains(x) || x
            == event by {
            if placed.contains(x) {
                let k = choose|k: int| 0 <= k < placed.len() && placed[k] == x;
                if k < inner.len() {
                    assert(inner[k] == x);
                    assert(inner.contains(x));
                    if front.contains(x) {
                        let m = choose|m: int| 0 <= m < front.len() && front[m] == x;
                        assert(list[m] == x);
                    }
                } else {
                    assert(list[list.len() - 1] == x);
                }
            }
            if list.contains(x) {
                let m = choose|m: int| 0 <= m < list.len() && list[m] == x;
                if m < front.len() {
                    assert(front[m] == x);
                    assert(inner.contains(x));
                    let k = choose|k: int| 0 <= k < inner.len() && inner[k] == x;
                    assert(placed[k] == x);
                } else {
                    assert(placed[placed.len() - 1] == x);
                }
            }
            if x == event {
                assert(inner.contains(x));
                let k = choose|k: int| 0 <= k < inner.len() && inner[k] == x;
                assert(placed[k] == x);
            }
        }
        if in_order(list) {
            assert forall|i: int, j: int| 0 <= i < j < front.len() implies !events::event_before(
                #[trigger] front[j],
                #[trigger] front[i],
            ) by {
                assert(front[j] == list[j] && front[i] == list[i]);
            }
            assert forall|i: int, j: int| 0 <= i < j < placed.len() implies !events::event_before(
                #[trigger] placed[j],
                #[trigger] placed[i],
            ) by {
                if j == placed.len() - 1 {
                    assert(inner[i] == placed[i]);
                    assert(inner.contains(placed[i]));
                    if placed[i] == event {
                        event_order_is_strict(event, list.last());
                    } else {
                        let m = choose|m: int| 0 <= m < front.len() && front[m] == placed[i];
                        assert(list[m] == placed[i]);
                        assert(!events::event_before(list[list.len() - 1], list[m]));
                    }
                } else {
                    assert(inner[i] == placed[i] && inner[j] == placed[j]);
                }
            }
        }
    } else {
        assert(placed == list.push(event));
        assert forall|x: EventView| #[trigger] placed.contains(x) <==> list.contains(x) || x
            == event by {
            if placed.contains(x) {
                let k = choose|k: int| 0 <= k < placed.len() && placed[k] == x;
                if k < list.len() {
                    assert(list[k] == x);
                }
            }
            if list.contains(x) {
                let m = choose|m: int| 0 <= m < list.len() && list[m] == x;
                assert(placed[m] == x);
            }
            if x == event {
                assert(placed[list.len() as int] == x);
            }
        }
        if in_order(list) {
            assert forall|i: int, j: int| 0 <= i < j < placed.len() implies !events::event_before(
                #[trigger] placed[j],
                #[trigger] placed[i],
            ) by {
                if j == list.len() {
                    let last = list.last();
                    if i < list.len() - 1 {
                        assert(!events::event_before(list[list.len() - 1], list[i]));
                    } else {
                        event_order_is_strict(last, last);
                    }
                    if events::event_before(event, list[i]) {
                        event_order_is_strict(list[i], last);
                        if events::event_before(list[i], last) {
                            event_order_is_transitive(event, list[i], last);
                        }
                    }
                } else {
                    assert(placed[i] == list[i] && placed[j] == list[j]);
                }
            }
        }
    }
}

/// Sorting keeps the number of events and the events themselves, and puts them
/// in order.
pub proof fn sorting_orders_the_same_events(list: Seq<EventView>)
    ensures
        events::sorted_events(list).len() == list.len(),
        forall|x: EventView| #[trigger]
            events::sorted_events(list).contains(x) <==> list.contains(x),
        in_order(events::sorted_events(list)),
    decreases list.len(),
{
    if list.len() > 0 {
        let front = list.drop_last();
        sorting_orders_the_same_events(front);
        lemma_insert(events::sorted_events(front), list.last());
        assert forall|x: EventView| #[trigger]
            events::sorted_events(list).contains(x) <==> list.contains(x) by {
            if list.contains(x) {
                let m = choose|m: int| 0 <= m < list.len() && list[m] == x;
                if m < front.len() {
                    assert(front[m] == x);
                }
            }
            if front.contains(x) {
                let m = choose|m: int| 0 <= m < front.len() && front[m] == x;
                assert(list[m] == x);
            }
            assert(list[list.len() - 1] == list.last());
        }
    }
}

/// Any two events of the list come from different messages and have different
/// logical keys.
pub open spec fn all_different(job: Seq<char>, list: Seq<EventView>) -> bool {
    forall|i: int, j: int|
        0 <= i < list.len() && 0 <= j < list.len() && i != j ==> (#[trigger] list[i]).message_id
            != (#[trigger] list[j]).message_id && events::logical_key(job, list[i])
            != events::logical_key(job, list[j])
}

proof fn lemma_insert_different(job: Seq<char>, list: Seq<EventView>, event: EventView)
    requires
        all_different(job, list.push(event)),
    ensures
        all_different(job, events::insert_event(list, event)),
    decreases list.len(),
{
    if list.len() > 0 && events::event_before(event, list.last()) {
        let front = list.drop_last();
        let whole = list.push(event);
        assert forall|i: int, j: int|
            0 <= i < front.push(event).len() && 0 <= j < front.push(event).len() && i
                != j implies (#[trigger] front.push(event)[i]).message_id != (
        #[trigger] front.push(event)[j]).message_id && events::logical_key(
            job,
            front.push(event)[i],
        ) != events::logical_key(job, front.push(event)[j]) by {
            let wi = if i < front.len() {
                i
            } else {
                list.len() as int
            };
            let wj = if j < front.len() {
                j
            } else {
                list.len() as int
            };
            assert(whole[wi] == front.push(event)[i]);
            assert(whole[wj] == front.push(event)[j]);
        }
        lemma_insert_different(job, front, event);
        lemma_insert(front, event);
        let inner = events::insert_event(front, event);
        let placed = inner.push(list.last());
        assert forall|k: int| 0 <= k < inner.len() implies (#[trigger] inner[k]).message_id
            != list.last().message_id && events::logical_key(job, inner[k]) != events::logical_key(
            job,
            list.last(),
        ) by {
            assert(inner.contains(inner[k]));
            assert(whole[list.len() - 1] == list.last());
            if inner[k] == event {
                assert(whole[list.len() as int] == event);
            } else {
                let m = choose|m: int| 0 <= m < front.len() && front[m] == inner[k];
                assert(whole[m] == inner[k]);
            }
        }
        assert forall|i: int, j: int|
            0 <= i < placed.len() && 0 <= j < placed.len() && i != j implies (
        #[trigger] placed[i]).message_id != (#[trigger] placed[j]).message_id
            && events::logical_key(job, placed[i]) != events::logical_key(job, placed[j]) by {
            if i < inner.len() && j < inner.len() {
                assert(placed[i] == inner[i] && placed[j] == inner[j]);
            } else if i < inner.len() {
                assert(placed[i] == inner[i]);
            } else {
                assert(placed[j] == inner[j]);
            }
        }
    }
}

proof fn lemma_sorted_different(job: Seq<char>, list: Seq<EventView>)
    requires
        all_different(job, list),
    ensures
        all_different(job, events::sorted_events(list)),
    decreases list.len(),
{
    if list.len() > 0 {
        let front = list.drop_last();
        assert forall|i: int, j: int|
            0 <= i < front.len() && 0 <= j < front.len() && i != j implies (
        #[trigger] front[i]).message_id != (#[trigger] front[j]).message_id && events::logical_key(
            job,
            front[i],
        ) != events::logical_key(job, front[j]) by {
            assert(front[i] == list[i] && front[j] == list[j]);
        }
        lemma_sorted_different(job, front);
        sorting_orders_the_same_events(front);
        let sorted = events::sorted_events(front);
        let whole = sorted.push(list.last());
        assert forall|k: int| 0 <= k < sorted.len() implies (#[trigger] sorted[k]).message_id
            != list.last().message_id && events::logical_key(job, sorted[k]) != events::logical_key(
            job,
            list.last(),
        ) by {
            assert(sorted.contains(sorted[k]));
            let m = choose|m: int| 0 <= m < front.len() && front[m] == sorted[k];
            assert(list[m] == sorted[k]);
            assert(list[list.len() - 1] == list.last());
        }
        assert forall|i: int, j: int|
            0 <= i < whole.len() && 0 <= j < whole.len() && i != j implies (
        #[trigger] whole[i]).message_id != (#[trigger] whole[j]).message_id && events::logical_key(
            job,
            whole[i],
        ) != events::logical_key(job, whole[j]) by {
            if i < sorted.len() && j < sorted.len() {
                assert(whole[i] == sorted[i] && whole[j] == sorted[j]);
            } else if i < sorted.len() {
                assert(whole[i] == sorted[i]);
            } else {
                assert(whole[j] == sorted[j]);
            }
        }
        lemma_insert_different(job, sorted, list.last());
    }
}

/// Where an event of a history comes from: a message that keeps it.
pub open spec fn comes_from(
    job: Seq<char>,
    messages: Seq<MessageView>,
    k: int,
    event: EventView,
) -> bool {
    &&& 0 <= k < messages.len()
    &&& events::is_kept(job, messages, k)
    &&& events::recognized_event(job, messages[k]) == Some(event)
}

proof fn lemma_kept_events(job: Seq<char>, messages: Seq<MessageView>, n: int)
    requires
        0 <= n <= messages.len(),
    ensures
        all_different(job, events::kept_events(job, messages, n)),
        forall|e: EventView| #[trigger]
            events::kept_events(job, messages, n).contains(e) ==> exists|k: int|
                k < n && #[trigger] comes_from(job, messages, k, e),
        forall|k: int|
            0 <= k < n && #[trigger] events::is_kept(job, messages, k) ==> events::kept_events(
                job,
                messages,
                n,
            ).contains(events::recognized_event(job, messages[k])->0),
    decreases n,
{
    if n > 0 {
        let m = n - 1;
        lemma_kept_events(job, messages, m);
        let before = events::kept_events(job, messages, m);
        let after = events::kept_events(job, messages, n);
        assert forall|x: EventView| before.contains(x) implies after.contains(x) by {
            let k = choose|k: int| 0 <= k < before.len() && before[k] == x;
            assert(after[k] == x);
        }
        if events::is_kept(job, messages, m) {
            let event = events::recognized_event(job, messages[m])->0;
            assert(after[before.len() as int] == event);
            assert(event.message_id == messages[m].id) by {
                reveal(events::recognized_event);
            }
            assert forall|i: int| 0 <= i < before.len() implies (#[trigger] before[i]).message_id
                != event.message_id && events::logical_key(job, before[i]) != events::logical_key(
                job,
                event,
            ) by {
                assert(before.contains(before[i]));
                let k = choose|k: int| k < m && #[trigger] comes_from(job, messages, k, before[i]);
                assert(before[i].message_id == messages[k].id) by {
                    reveal(events::recognized_event);
                }
                assert(events::is_candidate(job, messages, k));
                assert(events::is_first_of_id(messages, m));
            }
            assert forall|i: int, j: int|
                0 <= i < after.len() && 0 <= j < after.len() && i != j implies (
            #[trigger] after[i]).message_id != (#[trigger] after[j]).message_id
                && events::logical_key(job, after[i]) != events::logical_key(job, after[j]) by {
                if i < before.len() && j < before.len() {
                    assert(after[i] == before[i] && after[j] == before[j]);
                } else if i < before.len() {
                    assert(after[i] == before[i]);
                } else {
                    assert(after[j] == before[j]);
                }
            }
            assert(comes_from(job, messages, m, event));
        }
        assert forall|e: EventView| #[trigger] after.contains(e) implies exists|k: int|
            k < n && #[trigger] comes_from(job, messages, k, e) by {
            let i = choose|i: int| 0 <= i < after.len() && after[i] == e;
            if i < before.len() {
                assert(before[i] == e);
                assert(before.contains(e));
                let k = choose|k: int| k < m && #[trigger] comes_from(job, messages, k, e);
                assert(comes_from(job, messages, k, e));
            }
        }
    }
}

/// The events of a history stand in strict order; any two come from different
/// messages and state different events.
pub proof fn history_is_ordered_without_repetition(job: Seq<char>, messages: Seq<MessageView>)
    ensures
        all_different(job, events::history_events(job, messages)),
        forall|i: int, j: int|
            0 <= i < j < events::history_events(job, messages).len() ==> events::event_before(
                #[trigger] events::history_events(job, messages)[i],
                #[trigger] events::history_events(job, messages)[j],
            ),
{
    let kept = events::kept_events(job, messages, messages.len() as int);
    let all = events::history_events(job, messages);
    lemma_kept_events(job, messages, messages.len() as int);
    lemma_sorted_different(job, kept);
    sorting_orders_the_same_events(kept);
    assert forall|i: int, j: int| 0 <= i < j < all.len() implies events::event_before(
        #[trigger] all[i],
        #[trigger] all[j],
    ) by {
        event_order_is_strict(all[i], all[j]);
    }
}

/// Every event of a history is stated by one of its messages, in an object that
/// names the system as its source and the job exactly.
pub proof fn history_events_are_official(job: Seq<char>, messages: Seq<MessageView>, i: int)
    requires
        0 <= i < events::history_events(job, messages).len(),
    ensures
        exists|k: int| #[trigger]
            comes_from(job, messages, k, events::history_events(job, messages)[i])
                && events::official_envelope(messages[k].content) is Some && crate::json::text_at(
                events::official_envelope(messages[k].content)->0,
                "jobId"@,
            ) == Some(job),
{
    let kept = events::kept_events(job, messages, messages.len() as int);
    let all = events::history_events(job, messages);
    lemma_kept_events(job, messages, messages.len() as int);
    sorting_orders_the_same_events(kept);
    assert(all.contains(all[i]));
    let k = choose|k: int|
        k < messages.len() && #[trigger] comes_from(job, messages, k, all[i]);
    assert(comes_from(job, messages, k, all[i]));
    reveal(events::recognized_event);
}

/// No official event is lost: for each message that is the first of its id and
/// states an event of the job, the history has an event with its logical key.
pub proof fn history_is_complete(job: Seq<char>, messages: Seq<MessageView>, k: int)
    requires
        0 <= k < messages.len(),
        events::is_candidate(job, messages, k),
    ensures
        exists|i: int|
            0 <= i < events::history_events(job, messages).len() && events::logical_key(
                job,
                #[trigger] events::history_events(job, messages)[i],
            ) == events::key_at(job, messages, k),
    decreases k,
{
    let kept = events::kept_events(job, messages, messages.len() as int);
    let all = events::history_events(job, messages);
    if events::is_kept(job, messages, k) {
        lemma_kept_events(job, messages, messages.len() as int);
        sorting_orders_the_same_events(kept);
        let event = events::recognized_event(job, messages[k])->0;
        assert(all.contains(event));
        let i = choose|i: int| 0 <= i < all.len() && all[i] == event;
        assert(events::logical_key(job, all[i]) == events::key_at(job, messages, k));
    } else {
        let j = choose|j: int|
            0 <= j < k && #[trigger] events::is_candidate(job, messages, j) && events::key_at(
                job,
                messages,
                j,
            ) == events::key_at(job, messages, k);
        history_is_complete(job, messages, j);
    }
}

/// Whether messages are kept does not depend on what comes after them.
proof fn lemma_later_messages_do_not_matter(
    job: Seq<char>,
    messages: Seq<MessageView>,
    message: MessageView,
    n: int,
)
    requires
        0 <= n <= messages.len(),
    ensures
        events::kept_events(job, messages.push(message), n) == events::kept_events(
            job,
            messages,
            n,
        ),
    decreases n,
{
    if n > 0 {
        let more = messages.push(message);
        lemma_later_messages_do_not_matter(job, messages, message, n - 1);
        assert forall|i: int| 0 <= i < n implies events::is_candidate(job, more, i)
            == #[trigger] events::is_candidate(job, messages, i) by {
            lemma_same_first(messages, message, i);
        }
        let i = n - 1;
        assert(events::is_kept(job, more, i) == events::is_kept(job, messages, i)) by {
            assert(events::is_candidate(job, more, i) == events::is_candidate(job, messages, i));
            assert forall|j: int| 0 <= j < i implies events::is_candidate(job, more, j)
                == events::is_candidate(job, messages, j) && events::key_at(job, more, j)
                == #[trigger] events::key_at(job, messages, j) by {
                assert(more[j] == messages[j]);
            }
            assert(more[i] == messages[i]);
            if events::is_kept(job, messages, i) {
                assert forall|j: int|
                    0 <= j < i && #[trigger] events::is_candidate(
                        job,
                        more,
                        j,
                    ) implies events::key_at(job, more, j) != events::key_at(job, more, i) by {
                    assert(events::is_candidate(job, messages, j));
                    assert(events::key_at(job, messages, j) != events::key_at(job, messages, i));
                }
            }
            if events::is_kept(job, more, i) {
                assert forall|j: int|
                    0 <= j < i && #[trigger] events::is_candidate(
                        job,
                        messages,
                        j,
                    ) implies events::key_at(job, messages, j) != events::key_at(
                    job,
                    messages,
                    i,
                ) by {
                    assert(events::is_candidate(job, more, j));
                    assert(events::key_at(job, more, j) != events::key_at(job, more, i));
                }
            }
        }
        assert(more[i] == messages[i]);
    }
}

proof fn lemma_same_first(messages: Seq<MessageView>, message: MessageView, i: int)
    requires
        0 <= i < messages.len(),
    ensures
        events::is_first_of_id(messages.push(message), i) == events::is_first_of_id(messages, i),
        messages.push(message)[i] == messages[i],
{
    let more = messages.push(message);
    if events::is_first_of_id(messages, i) {
        assert forall|j: int| 0 <= j < i implies (#[trigger] more[j]).id != more[i].id by {
            assert(more[j] == messages[j]);
        }
    }
    if events::is_first_of_id(more, i) {
        assert forall|j: int| 0 <= j < i implies (#[trigger] messages[j]).id != messages[i].id by {
            assert(more[j] == messages[j]);
        }
    }
}

/// A message adds nothing to a history where one of its id came before, or where it
/// states no event of the job.
pub proof fn repeated_messages_add_nothing(
    job: Seq<char>,
    messages: Seq<MessageView>,
    message: MessageView,
)
    requires
        events::recognized_event(job, message) is None || exists|j: int|
            0 <= j < messages.len() && (#[trigger] messages[j]).id == message.id,
    ensures
        events::history_events(job, messages.push(message)) == events::history_events(
            job,
            messages,
        ),
{
    let more = messages.push(message);
    let n = messages.len() as int;
    lemma_later_messages_do_not_matter(job, messages, message, n);
    assert(more[n] == message);
    if events::recognized_event(job, message) is Some {
        let j = choose|j: int| 0 <= j < messages.len() && (#[trigger] messages[j]).id == message.id;
        assert(more[j] == messages[j]);
        assert(!events::is_first_of_id(more, n));
    }
    assert(!events::is_kept(job, more, n));
}

/// A message with an id and an event of its own adds that event to a history, and
/// keeps the others; of several statements of one event, the first counts.
pub proof fn new_messages_add_their_event(
    job: Seq<char>,
    messages: Seq<MessageView>,
    message: MessageView,
)
    requires
        events::recognized_event(job, message) is Some,
        forall|j: int| 0 <= j < messages.len() ==> (#[trigger] messages[j]).id != message.id,
    ensures
        ({
            let event = events::recognized_event(job, message)->0;
            let before = events::history_events(job, messages);
            let after = events::history_events(job, messages.push(message));
            let known = exists|j: int|
                0 <= j < messages.len() && #[trigger] events::is_candidate(job, messages, j)
                    && events::key_at(job, messages, j) == events::logical_key(job, event);
            &&& known ==> after == before
            &&& !known ==> after.len() == before.len() + 1 && forall|x: EventView| #[trigger]
                after.contains(x) <==> before.contains(x) || x == event
        }),
{
    let more = messages.push(message);
    let n = messages.len() as int;
    let event = events::recognized_event(job, message)->0;
    let kept = events::kept_events(job, messages, n);
    lemma_later_messages_do_not_matter(job, messages, message, n);
    assert(more[n] == message);
    assert forall|j: int| 0 <= j < n implies events::is_candidate(job, more, j)
        == events::is_candidate(job, messages, j) && events::key_at(job, more, j)
        == #[trigger] events::key_at(job, messages, j) by {
        lemma_same_first(messages, message, j);
    }
    assert(events::is_first_of_id(more, n)) by {
        assert forall|j: int| 0 <= j < n implies (#[trigger] more[j]).id != more[n].id by {
            assert(more[j] == messages[j]);
        }
    }
    assert(events::is_candidate(job, more, n));
    let known = exists|j: int|
        0 <= j < messages.len() && #[trigger] events::is_candidate(job, messages, j)
            && events::key_at(job, messages, j) == events::logical_key(job, event);
    if known {
        let j = choose|j: int|
            0 <= j < messages.len() && #[trigger] events::is_candidate(job, messages, j)
                && events::key_at(job, messages, j) == events::logical_key(job, event);
        assert(events::is_candidate(job, more, j));
        assert(events::key_at(job, more, j) == events::key_at(job, more, n));
        assert(!events::is_kept(job, more, n));
    } else {
        assert forall|j: int| 0 <= j < n && #[trigger] events::is_candidate(job, more, j) implies
            events::key_at(job, more, j) != events::key_at(job, more, n) by {
            lemma_same_first(messages, message, j);
            assert(events::is_candidate(job, messages, j));
        }
        assert(events::is_kept(job, more, n));
        sorting_orders_the_same_events(kept);
        sorting_orders_the_same_events(kept.push(event));
        assert(events::history_events(job, more) == events::sorted_events(kept.push(event)));
        let before = events::history_events(job, messages);
        let after = events::history_events(job, more);
        assert forall|x: EventView| #[trigger] after.contains(x) <==> before.contains(x) || x
            == event by {
            let longer = kept.push(event);
            assert(before.contains(x) <==> kept.contains(x));
            if kept.contains(x) {
                let i = choose|i: int| 0 <= i < kept.len() && kept[i] == x;
                assert(longer[i] == x);
            }
            if x == event {
                assert(longer[kept.len() as int] == x);
            }
            if longer.contains(x) && x != event {
                let i = choose|i: int| 0 <= i < longer.len() && longer[i] == x;
                assert(kept[i] == x);
            }
        }
    }
}

} // verus!
