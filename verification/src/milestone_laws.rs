//! What events and details say of a task: its status, its milestones and its deadline.

use vstd::prelude::*;

use crate::deadline;
use crate::events;
use crate::events::{EventView, LifecycleEventKind};
use crate::json;
use crate::json::JsonView;
use crate::milestones;
use crate::milestones::{MilestonesView, ProjectionView};
use crate::status;
use crate::status::StatusView;
use crate::text;

verus! {

/// The status that a history gives: a new event with one decides, and any other
/// changes nothing.
pub proof fn latest_status_is_that_of_the_last_event(earlier: Seq<EventView>, event: EventView)
    ensures
        milestones::event_status(event) is Some
            ==> milestones::latest_status(earlier.push(event)) == milestones::event_status(event),
        milestones::event_status(event) is None
            ==> milestones::latest_status(earlier.push(event))
            == milestones::latest_status(earlier),
        milestones::latest_status(Seq::empty()) is None,
{
    assert(earlier.push(event).drop_last() =~= earlier);
}

/// The status that a history gives is that of some event after which no event has
/// one.
pub proof fn latest_status_comes_from_an_event(list: Seq<EventView>)
    ensures
        match milestones::latest_status(list) {
            Some(found) => exists|i: int|
                0 <= i < list.len() && milestones::event_status(#[trigger] list[i]) == Some(found)
                    && forall|j: int|
                    i < j < list.len() ==> milestones::event_status(#[trigger] list[j]) is None,
            None => forall|i: int| 0 <= i < list.len()
                ==> milestones::event_status(#[trigger] list[i]) is None,
        },
    decreases list.len(),
{
    if list.len() > 0 {
        let front = list.drop_last();
        latest_status_comes_from_an_event(front);
        if milestones::event_status(list.last()) is Some {
            let i = list.len() - 1;
            assert(milestones::event_status(list[i]) == milestones::latest_status(list));
        } else if milestones::latest_status(front) is Some {
            let found = milestones::latest_status(front)->0;
            let i = choose|i: int|
                0 <= i < front.len()
                    && milestones::event_status(#[trigger] front[i]) == Some(found)
                    && forall|j: int|
                    i < j < front.len() ==> milestones::event_status(#[trigger] front[j]) is None;
            assert(list[i] == front[i]);
            assert forall|j: int| i < j < list.len() implies milestones::event_status(#[trigger] list[j]) is None by {
                if j < front.len() {
                    assert(list[j] == front[j]);
                }
            }
        } else {
            assert forall|i: int| 0 <= i < list.len() implies milestones::event_status(#[trigger] list[i]) is None by {
                if i < front.len() {
                    assert(list[i] == front[i]);
                }
            }
        }
    }
}

/// The end that a history gives: a new event with one decides, and any other
/// changes nothing.
pub proof fn latest_ending_is_that_of_the_last_event(earlier: Seq<EventView>, event: EventView)
    ensures
        milestones::ending(event) is Some
            ==> milestones::latest_ending(earlier.push(event)) == milestones::ending(event),
        milestones::ending(event) is None
            ==> milestones::latest_ending(earlier.push(event))
            == milestones::latest_ending(earlier),
        milestones::latest_ending(Seq::empty()) is None,
{
    assert(earlier.push(event).drop_last() =~= earlier);
}

/// The end that a history gives is that of some event after which no event has one.
pub proof fn latest_ending_comes_from_an_event(list: Seq<EventView>)
    ensures
        match milestones::latest_ending(list) {
            Some(found) => exists|i: int|
                0 <= i < list.len() && milestones::ending(#[trigger] list[i]) == Some(found)
                    && forall|j: int|
                    i < j < list.len() ==> milestones::ending(#[trigger] list[j]) is None,
            None => forall|i: int| 0 <= i < list.len()
                ==> milestones::ending(#[trigger] list[i]) is None,
        },
    decreases list.len(),
{
    if list.len() > 0 {
        let front = list.drop_last();
        latest_ending_comes_from_an_event(front);
        if milestones::ending(list.last()) is Some {
            let i = list.len() - 1;
            assert(milestones::ending(list[i]) == milestones::latest_ending(list));
        } else if milestones::latest_ending(front) is Some {
            let found = milestones::latest_ending(front)->0;
            let i = choose|i: int|
                0 <= i < front.len() && milestones::ending(#[trigger] front[i]) == Some(found)
                    && forall|j: int|
                    i < j < front.len() ==> milestones::ending(#[trigger] front[j]) is None;
            assert(list[i] == front[i]);
            assert forall|j: int| i < j < list.len() implies milestones::ending(#[trigger] list[j]) is None by {
                if j < front.len() {
                    assert(list[j] == front[j]);
                }
            }
        } else {
            assert forall|i: int| 0 <= i < list.len() implies milestones::ending(#[trigger] list[i]) is None by {
                if i < front.len() {
                    assert(list[i] == front[i]);
                }
            }
        }
    }
}

/// The type that a history gives: a new event with one decides, and any other
/// changes nothing.
pub proof fn latest_job_type_is_that_of_the_last_event(earlier: Seq<EventView>, event: EventView)
    ensures
        event.job_type is Some
            ==> milestones::latest_job_type(earlier.push(event)) == event.job_type,
        event.job_type is None
            ==> milestones::latest_job_type(earlier.push(event))
            == milestones::latest_job_type(earlier),
        milestones::latest_job_type(Seq::empty()) is None,
{
    assert(earlier.push(event).drop_last() =~= earlier);
}

/// The type that a history gives is that of some event after which no event has
/// one.
pub proof fn latest_job_type_comes_from_an_event(list: Seq<EventView>)
    ensures
        match milestones::latest_job_type(list) {
            Some(found) => exists|i: int|
                0 <= i < list.len() && (#[trigger] list[i]).job_type == Some(found)
                    && forall|j: int|
                    i < j < list.len() ==> (#[trigger] list[j]).job_type is None,
            None => forall|i: int| 0 <= i < list.len() ==> (#[trigger] list[i]).job_type is None,
        },
    decreases list.len(),
{
    if list.len() > 0 {
        let front = list.drop_last();
        latest_job_type_comes_from_an_event(front);
        if list.last().job_type is Some {
            let i = list.len() - 1;
            assert(list[i].job_type == milestones::latest_job_type(list));
        } else if milestones::latest_job_type(front) is Some {
            let found = milestones::latest_job_type(front)->0;
            let i = choose|i: int|
                0 <= i < front.len() && (#[trigger] front[i]).job_type == Some(found)
                    && forall|j: int|
                    i < j < front.len() ==> (#[trigger] front[j]).job_type is None;
            assert(list[i] == front[i]);
            assert forall|j: int| i < j < list.len() implies (#[trigger] list[j]).job_type is None by {
                if j < front.len() {
                    assert(list[j] == front[j]);
                }
            }
        } else {
            assert forall|i: int| 0 <= i < list.len() implies (#[trigger] list[i]).job_type is None by {
                if i < front.len() {
                    assert(list[i] == front[i]);
                }
            }
        }
    }
}

/// The status that an event implies: that of the step it reports.
pub proof fn events_imply_their_status(kind: LifecycleEventKind)
    ensures
        milestones::status_of_kind(kind) == Some(StatusView::Created)
            <==> kind == LifecycleEventKind::AspSelected || kind == LifecycleEventKind::Created
            || kind == LifecycleEventKind::ProviderRejected,
        milestones::status_of_kind(kind) == Some(StatusView::Accepted)
            <==> kind == LifecycleEventKind::Accepted,
        milestones::status_of_kind(kind) == Some(StatusView::Submitted)
            <==> kind == LifecycleEventKind::Submitted || kind == LifecycleEventKind::ReviewExpired,
        milestones::status_of_kind(kind) == Some(StatusView::Rejected)
            <==> kind == LifecycleEventKind::Rejected
            || kind == LifecycleEventKind::DisputeRequested
            || kind == LifecycleEventKind::RejectExpired,
        milestones::status_of_kind(kind) == Some(StatusView::Disputed)
            <==> kind == LifecycleEventKind::Disputed,
        milestones::status_of_kind(kind) == Some(StatusView::Completed)
            <==> kind == LifecycleEventKind::Completed,
        milestones::status_of_kind(kind) == Some(StatusView::Close)
            <==> kind == LifecycleEventKind::Closed,
        milestones::status_of_kind(kind) == Some(StatusView::Expired)
            <==> kind == LifecycleEventKind::Expired,
        milestones::status_of_kind(kind) == Some(StatusView::Failed)
            <==> kind == LifecycleEventKind::Refunded || kind == LifecycleEventKind::Failed,
        milestones::status_of_kind(kind) is Some <==> kind == LifecycleEventKind::AspSelected
            || kind == LifecycleEventKind::Created || kind == LifecycleEventKind::ProviderRejected
            || kind == LifecycleEventKind::Accepted || kind == LifecycleEventKind::Submitted
            || kind == LifecycleEventKind::ReviewExpired || kind == LifecycleEventKind::Rejected
            || kind == LifecycleEventKind::DisputeRequested
            || kind == LifecycleEventKind::RejectExpired || kind == LifecycleEventKind::Disputed
            || kind == LifecycleEventKind::Completed || kind == LifecycleEventKind::Closed
            || kind == LifecycleEventKind::Expired || kind == LifecycleEventKind::Refunded
            || kind == LifecycleEventKind::Failed,
{
}

/// What an event states of the status wins over what its kind implies: a code, or
/// a known name in any case and with white space around it.
pub proof fn stated_statuses_win(event: EventView, code: i32)
    ensures
        event.authoritative_status is None ==> milestones::event_status(event)
            == milestones::status_of_kind(event.kind),
        event.authoritative_status == Some(text::decimal(code as int)) ==> milestones::event_status(
            event,
        ) == Some(status::status_of_code(code)),
        event.authoritative_status is Some && text::integer_value(event.authoritative_status->0)
            is None ==> ({
            let named = status::status_of_text(
                text::ascii_lower(text::trimmed(event.authoritative_status->0)),
            );
            &&& !(named is Other) ==> milestones::event_status(event) == Some(named)
            &&& named is Other ==> milestones::event_status(event) == milestones::status_of_kind(
                event.kind,
            )
        }),
{
    text::decimal_reads_back(code as int);
}

/// An event ends a task just where it reports the completion, the closure, the
/// expiry, the refund or the failure, or resolves the dispute with a status.
pub proof fn endings_belong_to_their_events(event: EventView)
    ensures
        event.kind == LifecycleEventKind::Completed ==> milestones::ending(event) == Some(
            StatusView::Completed,
        ),
        event.kind == LifecycleEventKind::Closed ==> milestones::ending(event) == Some(
            StatusView::Close,
        ),
        event.kind == LifecycleEventKind::Expired ==> milestones::ending(event) == Some(
            StatusView::Expired,
        ),
        event.kind == LifecycleEventKind::Refunded || event.kind == LifecycleEventKind::Failed
            ==> milestones::ending(event) == Some(StatusView::Failed),
        event.kind == LifecycleEventKind::DisputeResolved ==> milestones::ending(event)
            == milestones::event_status(event),
        milestones::ending(event) is Some ==> event.kind == LifecycleEventKind::Completed
            || event.kind == LifecycleEventKind::Closed || event.kind
            == LifecycleEventKind::Expired || event.kind == LifecycleEventKind::Refunded
            || event.kind == LifecycleEventKind::Failed || event.kind
            == LifecycleEventKind::DisputeResolved,
{
}

/// Events conflict with a status just where they end the task and the status says
/// otherwise; a closed task may have been stopped by the platform.
pub proof fn conflicts_are_other_endings(
    current: StatusView,
    earlier: Seq<EventView>,
    event: EventView,
)
    ensures
        !milestones::conflicts(current, Seq::empty()),
        milestones::ending(event) is None ==> milestones::conflicts(current, earlier.push(event))
            == milestones::conflicts(current, earlier),
        event.kind == LifecycleEventKind::Completed ==> (milestones::conflicts(
            current,
            earlier.push(event),
        ) <==> current != StatusView::Completed),
        event.kind == LifecycleEventKind::Closed ==> (milestones::conflicts(
            current,
            earlier.push(event),
        ) <==> current != StatusView::Close && current != StatusView::AdminStopped),
        event.kind == LifecycleEventKind::Expired ==> (milestones::conflicts(
            current,
            earlier.push(event),
        ) <==> current != StatusView::Expired),
        event.kind == LifecycleEventKind::Refunded ==> (milestones::conflicts(
            current,
            earlier.push(event),
        ) <==> current != StatusView::Failed),
{
    assert(earlier.push(event).drop_last() =~= earlier);
}

/// An event reaches one milestone: that of its kind, at its time.
pub proof fn one_event_reaches_one_milestone(event: EventView)
    ensures
        ({
            let reached = milestones::folded(seq![event]);
            &&& reached.created_at == (if event.kind == LifecycleEventKind::Created {
                event.occurred_at
            } else {
                None
            })
            &&& reached.accepted_at == (if event.kind == LifecycleEventKind::Accepted {
                event.occurred_at
            } else {
                None
            })
            &&& reached.submitted_at == (if event.kind == LifecycleEventKind::Submitted {
                event.occurred_at
            } else {
                None
            })
            &&& reached.completed_at == (if event.kind == LifecycleEventKind::Completed {
                event.occurred_at
            } else {
                None
            })
            &&& reached.rejected_at == (if event.kind == LifecycleEventKind::Rejected {
                event.occurred_at
            } else {
                None
            })
            &&& reached.dispute_requested_at == (if event.kind
                == LifecycleEventKind::DisputeRequested {
                event.occurred_at
            } else {
                None
            })
            &&& reached.disputed_at == (if event.kind == LifecycleEventKind::Disputed {
                event.occurred_at
            } else {
                None
            })
            &&& reached.dispute_resolved_at == (if event.kind
                == LifecycleEventKind::DisputeResolved {
                event.occurred_at
            } else {
                None
            })
            &&& reached.review_expired_at == (if event.kind == LifecycleEventKind::ReviewExpired {
                event.occurred_at
            } else {
                None
            })
            &&& reached.reject_expired_at == (if event.kind == LifecycleEventKind::RejectExpired {
                event.occurred_at
            } else {
                None
            })
            &&& reached.closed_at == (if event.kind == LifecycleEventKind::Closed {
                event.occurred_at
            } else {
                None
            })
            &&& reached.expired_at == (if event.kind == LifecycleEventKind::Expired {
                event.occurred_at
            } else {
                None
            })
            &&& reached.refunded_at == (if event.kind == LifecycleEventKind::Refunded {
                event.occurred_at
            } else {
                None
            })
            &&& reached.failed_at == (if event.kind == LifecycleEventKind::Failed {
                event.occurred_at
            } else {
                None
            })
        }),
{
    assert(seq![event].skip(1) =~= Seq::<EventView>::empty());
    reveal_with_fuel(milestones::first_time, 2);
}

/// Of two histories, one after the other, the earlier one gives each milestone
/// that it reaches, and the later one the others.
pub proof fn earlier_events_give_the_milestones(earlier: Seq<EventView>, later: Seq<EventView>)
    ensures
        ({
            let whole = milestones::folded(earlier + later);
            let first = milestones::folded(earlier);
            let second = milestones::folded(later);
            &&& whole.created_at == (if first.created_at is Some {
                first.created_at
            } else {
                second.created_at
            })
            &&& whole.accepted_at == (if first.accepted_at is Some {
                first.accepted_at
            } else {
                second.accepted_at
            })
            &&& whole.submitted_at == (if first.submitted_at is Some {
                first.submitted_at
            } else {
                second.submitted_at
            })
            &&& whole.completed_at == (if first.completed_at is Some {
                first.completed_at
            } else {
                second.completed_at
            })
            &&& whole.rejected_at == (if first.rejected_at is Some {
                first.rejected_at
            } else {
                second.rejected_at
            })
            &&& whole.dispute_requested_at == (if first.dispute_requested_at is Some {
                first.dispute_requested_at
            } else {
                second.dispute_requested_at
            })
            &&& whole.disputed_at == (if first.disputed_at is Some {
                first.disputed_at
            } else {
                second.disputed_at
            })
            &&& whole.dispute_resolved_at == (if first.dispute_resolved_at is Some {
                first.dispute_resolved_at
            } else {
                second.dispute_resolved_at
            })
            &&& whole.review_expired_at == (if first.review_expired_at is Some {
                first.review_expired_at
            } else {
                second.review_expired_at
            })
            &&& whole.reject_expired_at == (if first.reject_expired_at is Some {
                first.reject_expired_at
            } else {
                second.reject_expired_at
            })
            &&& whole.closed_at == (if first.closed_at is Some {
                first.closed_at
            } else {
                second.closed_at
            })
            &&& whole.expired_at == (if first.expired_at is Some {
                first.expired_at
            } else {
                second.expired_at
            })
            &&& whole.refunded_at == (if first.refunded_at is Some {
                first.refunded_at
            } else {
                second.refunded_at
            })
            &&& whole.failed_at == (if first.failed_at is Some {
                first.failed_at
            } else {
                second.failed_at
            })
        }),
{
    milestones::first_time_is_kept(earlier, later, LifecycleEventKind::Created);
    milestones::first_time_is_kept(earlier, later, LifecycleEventKind::Accepted);
    milestones::first_time_is_kept(earlier, later, LifecycleEventKind::Submitted);
    milestones::first_time_is_kept(earlier, later, LifecycleEventKind::Completed);
    milestones::first_time_is_kept(earlier, later, LifecycleEventKind::Rejected);
    milestones::first_time_is_kept(earlier, later, LifecycleEventKind::DisputeRequested);
    milestones::first_time_is_kept(earlier, later, LifecycleEventKind::Disputed);
    milestones::first_time_is_kept(earlier, later, LifecycleEventKind::DisputeResolved);
    milestones::first_time_is_kept(earlier, later, LifecycleEventKind::ReviewExpired);
    milestones::first_time_is_kept(earlier, later, LifecycleEventKind::RejectExpired);
    milestones::first_time_is_kept(earlier, later, LifecycleEventKind::Closed);
    milestones::first_time_is_kept(earlier, later, LifecycleEventKind::Expired);
    milestones::first_time_is_kept(earlier, later, LifecycleEventKind::Refunded);
    milestones::first_time_is_kept(earlier, later, LifecycleEventKind::Failed);
}

/// The text that a detail has under one key, or else under another.
pub open spec fn either(detail: JsonView, key: Seq<char>, other: Seq<char>) -> Option<Seq<char>> {
    if json::text_at(detail, key) is Some {
        json::text_at(detail, key)
    } else {
        json::text_at(detail, other)
    }
}

/// Of two keys, the first that has a text gives it.
pub proof fn first_of_two_keys(detail: JsonView, key: Seq<char>, other: Seq<char>)
    ensures
        json::first_text(detail, seq![key, other]) == either(detail, key, other),
        json::first_text(detail, seq![key]) == json::text_at(detail, key),
{
    reveal_with_fuel(json::first_text, 3);
    assert(seq![key, other].skip(1) =~= seq![other]);
    assert(seq![key].skip(1) =~= Seq::<Seq<char>>::empty());
    assert(seq![other].skip(1) =~= Seq::<Seq<char>>::empty());
}

/// A milestone that no event reaches is the one that the detail states under its
/// own key.
pub proof fn details_fill_their_milestones(known: MilestonesView, detail: JsonView)
    ensures
        ({
            let filled = milestones::merged(known, detail);
            &&& known.created_at is None ==> filled.created_at == either(
                detail,
                "createdAt"@,
                "createTime"@,
            )
            &&& known.accepted_at is None ==> filled.accepted_at == either(
                detail,
                "acceptedAt"@,
                "acceptTime"@,
            )
            &&& known.submitted_at is None ==> filled.submitted_at == either(
                detail,
                "submittedAt"@,
                "submitTime"@,
            )
            &&& known.completed_at is None ==> filled.completed_at == either(
                detail,
                "completedAt"@,
                "completeTime"@,
            )
            &&& known.rejected_at is None ==> filled.rejected_at == either(
                detail,
                "rejectedAt"@,
                "rejectTime"@,
            )
            &&& known.disputed_at is None ==> filled.disputed_at == either(
                detail,
                "disputedAt"@,
                "disputeTime"@,
            )
            &&& known.dispute_resolved_at is None ==> filled.dispute_resolved_at == either(
                detail,
                "disputeResolvedAt"@,
                "arbitrationCompletedAt"@,
            )
            &&& known.closed_at is None ==> filled.closed_at == either(
                detail,
                "closedAt"@,
                "closeTime"@,
            )
            &&& known.expired_at is None
                ==> filled.expired_at == json::text_at(detail, "expiredAt"@)
            &&& known.refunded_at is None ==> filled.refunded_at == either(
                detail,
                "refundedAt"@,
                "refundTime"@,
            )
            &&& known.failed_at is None ==> filled.failed_at == either(
                detail,
                "failedAt"@,
                "failureTime"@,
            )
        }),
{
    first_of_two_keys(detail, "createdAt"@, "createTime"@);
    first_of_two_keys(detail, "acceptedAt"@, "acceptTime"@);
    first_of_two_keys(detail, "submittedAt"@, "submitTime"@);
    first_of_two_keys(detail, "completedAt"@, "completeTime"@);
    first_of_two_keys(detail, "rejectedAt"@, "rejectTime"@);
    first_of_two_keys(detail, "disputedAt"@, "disputeTime"@);
    first_of_two_keys(detail, "disputeResolvedAt"@, "arbitrationCompletedAt"@);
    first_of_two_keys(detail, "closedAt"@, "closeTime"@);
    first_of_two_keys(detail, "expiredAt"@, "expiredAt"@);
    first_of_two_keys(detail, "refundedAt"@, "refundTime"@);
    first_of_two_keys(detail, "failedAt"@, "failureTime"@);
}

/// The deadline of a review, in its order: the three keys of the detail, the
/// deadline of the last submission, and three days after the submission.
pub proof fn deadlines_come_in_their_order(
    detail: JsonView,
    list: Seq<EventView>,
    known: MilestonesView,
    earlier: Seq<EventView>,
    event: EventView,
)
    ensures
        ({
            let found = milestones::review_deadline_of(detail, list, known);
            let exact = deadline::timestamp_at(detail, "reviewDeadlineAt"@);
            let window = deadline::timestamp_at(detail, "reviewWindowEndsAt"@);
            let expiry = deadline::timestamp_at(detail, "expireTime"@);
            let submitted = deadline::opt_timestamp(known.submitted_at);
            &&& exact is Some ==> found == exact
            &&& exact is None && window is Some ==> found == window
            &&& exact is None && window is None && expiry is Some ==> found == expiry
            &&& exact is None && window is None && expiry is None ==> ({
                &&& milestones::submission_deadline(list) is Some ==> found
                    == milestones::submission_deadline(list)
                &&& milestones::submission_deadline(list) is None && submitted is None ==> found
                    is None
                &&& milestones::submission_deadline(list) is None && submitted is Some
                    && submitted->0 <= i64::MAX - 259_200 ==> found == Some(
                    (submitted->0 + 3 * 24 * 60 * 60) as i64,
                )
            })
        }),
        event.kind == LifecycleEventKind::Submitted ==> milestones::submission_deadline(
            earlier.push(event),
        ) == deadline::opt_timestamp(event.deadline_at),
        event.kind != LifecycleEventKind::Submitted ==> milestones::submission_deadline(
            earlier.push(event),
        ) == milestones::submission_deadline(earlier),
        milestones::submission_deadline(Seq::empty()) is None,
{
    assert(earlier.push(event).drop_last() =~= earlier);
}

/// Where the detail is silent on the status or the type, the events say it.
pub proof fn events_fill_what_the_detail_leaves_open(
    projected: ProjectionView,
    earlier: Seq<EventView>,
    event: EventView,
)
    ensures
        projected.status is None && milestones::event_status(event) is Some
            ==> milestones::reconciled(projected, earlier.push(event)).status
            == milestones::event_status(event),
        projected.job_type is None && event.job_type is Some ==> milestones::reconciled(
            projected,
            earlier.push(event),
        ).job_type == event.job_type,
        milestones::reconciled(projected, earlier).status_from_local <==> projected.status is None
            && milestones::reconciled(projected, earlier).status is Some,
{
    latest_status_is_that_of_the_last_event(earlier, event);
    latest_job_type_is_that_of_the_last_event(earlier, event);
}

/// What a detail says of the current task, by its keys.
pub proof fn projections_read_their_keys(detail: JsonView, code: i32)
    ensures
        json::member(detail, "status"@) == Some(json::int_json(code as int))
            ==> milestones::projection(detail).status == Some(status::status_of_code(code)),
        json::member(detail, "status"@) is None ==> milestones::projection(detail).status is None,
        json::member(detail, "jobType"@) == Some(json::int_json(code as int))
            ==> milestones::projection(detail).job_type == Some(code),
        json::member(detail, "jobType"@) is None ==> milestones::projection(detail).job_type
            is None,
        milestones::projection(detail).provider_agent_id == either(
            detail,
            "providerAgentId"@,
            "aspAgentId"@,
        ),
        milestones::projection(detail).token_amount == (if json::text_at(detail, "refundAmount"@)
            is Some {
            json::text_at(detail, "refundAmount"@)
        } else {
            either(detail, "paymentTokenAmount"@, "tokenAmount"@)
        }),
        milestones::projection(detail).token_symbol == (if json::text_at(
            detail,
            "refundTokenSymbol"@,
        ) is Some {
            json::text_at(detail, "refundTokenSymbol"@)
        } else {
            either(detail, "paymentTokenSymbol"@, "tokenSymbol"@)
        }),
{
    first_of_two_keys(detail, "providerAgentId"@, "aspAgentId"@);
    first_of_two_keys(detail, "paymentTokenAmount"@, "tokenAmount"@);
    first_of_two_keys(detail, "paymentTokenSymbol"@, "tokenSymbol"@);
    assert(seq!["refundAmount"@, "paymentTokenAmount"@, "tokenAmount"@].skip(1)
        =~= seq!["paymentTokenAmount"@, "tokenAmount"@]);
    assert(seq!["refundTokenSymbol"@, "paymentTokenSymbol"@, "tokenSymbol"@].skip(1)
        =~= seq!["paymentTokenSymbol"@, "tokenSymbol"@]);
}

/// A type is named `one_time` or `subscription`, in any case, or given by its
/// number.
pub proof fn types_are_named_or_numbered(value: JsonView, code: i32)
    ensures
        value matches JsonView::Text(t) && text::ascii_lower(t) == "one_time"@
            ==> events::job_type_of(value) == Some(0i32),
        value matches JsonView::Text(t) && text::ascii_lower(t) == "subscription"@
            ==> events::job_type_of(value) == Some(1i32),
        value == json::int_json(code as int) ==> events::job_type_of(value) == Some(code),
        !(value is Text) && !(value is Number) ==> events::job_type_of(value) is None,
{
    reveal_strlit("one_time");
    reveal_strlit("subscription");
    assert("one_time"@.len() == 8);
    assert("subscription"@.len() == 12);
    assert(text::ascii_lower("one_time"@) =~= "one_time"@);
    assert(text::ascii_lower("subscription"@) =~= "subscription"@);
}

} // verus!
