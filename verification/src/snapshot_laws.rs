//! What the snapshot of a one-time task says, by its status, its detail and its record.

use vstd::prelude::*;

use crate::deadline;
use crate::display;
use crate::events;
use crate::events::{EventView, MessageView};
use crate::json::JsonView;
use crate::milestones;
use crate::milestone_laws;
use crate::phase;
use crate::phase::{LifecycleConfidence, LifecyclePhase};
use crate::snapshot;
use crate::snapshot::SnapshotView;
use crate::status;
use crate::status::StatusView;
use crate::text;

verus! {

/// How far a status is borne out: an unknown one not at all, one that the events
/// contradict is in conflict, and one without events is partly confirmed.
pub proof fn confidence_rests_on_the_events(current: StatusView, list: Seq<EventView>)
    ensures
        snapshot::confidence_of(current, list) == LifecycleConfidence::Unknown <==> current
            is Other,
        snapshot::confidence_of(current, list) == LifecycleConfidence::Conflict <==> !(current
            is Other) && milestones::conflicts(current, list),
        snapshot::confidence_of(current, list) == LifecycleConfidence::Partial <==> !(current
            is Other) && list.len() == 0,
        snapshot::confidence_of(current, list) == LifecycleConfidence::Confirmed ==> list.len() > 0
            && !milestones::conflicts(current, list),
{
}

/// What the snapshot of a status says: phase, label, party and action are those of
/// the status, and the record is counted.
pub proof fn snapshots_speak_of_their_status(
    shown: SnapshotView,
    job: Seq<char>,
    current: StatusView,
    messages: Seq<MessageView>,
    read: bool,
)
    requires
        snapshot::is_snapshot_of(shown, job, current, messages, read),
    ensures
        deadline::is_instant_text(shown.synced_at),
        shown.job_id == job,
        shown.task_type == "one_time"@,
        shown.status_source == "task_api"@,
        shown.authoritative_status == status::status_text(current),
        shown.phase == phase::phase_of(current),
        shown.status_label == phase::label_of(current),
        shown.responsible_party == phase::party_of(shown.phase),
        shown.next_action == phase::action_of(shown.phase),
        shown.confidence == snapshot::confidence_of(current, shown.events),
        shown.events == events::history_events(job, messages),
        shown.milestones == milestones::folded(shown.events),
        shown.history_event_count == shown.events.len(),
        shown.history_available <==> shown.events.len() > 0,
        shown.history_read_succeeded == read,
        shown.asp_agent_id is None,
        shown.events.len() == 0 ==> shown.display.notice == Some(
            "Some historical times are unavailable; the current stage comes from the latest task details."@,
        ),
        shown.events.len() > 0 ==> shown.display.notice is None,
        current == StatusView::Submitted ==> shown.status_label == "Waiting for user review"@,
        current == StatusView::Submitted && shown.milestones.review_expired_at is None
            ==> shown.display.current_summary == "Waiting for the deliverable"@,
{
}

/// A task whose detail is missing is shown by the last official event: its status
/// is the one that the event states or implies, whatever came before.
pub proof fn fallbacks_follow_the_last_event(
    shown: SnapshotView,
    job: Seq<char>,
    messages: Seq<MessageView>,
    read: bool,
    deliverable: bool,
    earlier: Seq<EventView>,
    last: EventView,
)
    requires
        snapshot::is_fallback_of(shown, job, messages, read, deliverable),
        events::history_events(job, messages) == earlier.push(last),
        milestones::event_status(last) is Some,
        milestones::latest_job_type(earlier.push(last)) == Some(0i32),
    ensures
        ({
            let current = milestones::event_status(last)->0;
            &&& shown.phase == phase::phase_of(current)
            &&& shown.status_label == phase::label_of(current)
            &&& shown.authoritative_status == status::status_text(current)
            &&& shown.responsible_party == phase::party_of(phase::phase_of(current))
            &&& shown.next_action == phase::action_of(phase::phase_of(current))
            &&& shown.task_type == "one_time"@
            &&& shown.status_source == "local_official_event"@
            &&& shown.confidence == LifecycleConfidence::Partial
            &&& shown.display.notice == Some(
                "Latest task details are unavailable; showing the latest verified local task record."@,
            )
            &&& shown.history_available
            &&& deadline::is_instant_text(shown.synced_at)
            &&& current == StatusView::Submitted ==> shown.phase
                == LifecyclePhase::WaitingForUserReview && shown.status_label
                == "Waiting for user review"@ && shown.responsible_party == "user"@
        }),
{
    milestone_laws::latest_status_is_that_of_the_last_event(earlier, last);
}

/// A record that does not establish the status of a one-time task is not
/// interpreted: it says what is missing, and of which type the task may be.
pub proof fn incomplete_records_are_not_interpreted(
    shown: SnapshotView,
    job: Seq<char>,
    messages: Seq<MessageView>,
    read: bool,
    deliverable: bool,
)
    requires
        snapshot::is_fallback_of(shown, job, messages, read, deliverable),
        milestones::latest_job_type(events::history_events(job, messages)) != Some(0i32)
            || milestones::latest_status(events::history_events(job, messages)) is None,
    ensures
        ({
            let stated = milestones::latest_job_type(events::history_events(job, messages));
            &&& shown.phase == LifecyclePhase::Unknown
            &&& shown.status_label == "Status unavailable"@
            &&& shown.confidence == LifecycleConfidence::Unknown
            &&& shown.status_source == "unavailable"@
            &&& shown.display.notice == Some("Verified local task history is incomplete."@)
            &&& shown.task_type == "subscription"@ <==> stated == Some(1i32)
            &&& shown.task_type == "unknown"@ <==> stated is None
            &&& shown.task_type == "unsupported"@ <==> stated is Some && stated != Some(1i32)
            &&& shown.history_event_count == shown.events.len()
            &&& shown.events == events::history_events(job, messages)
            &&& shown.history_available <==> shown.events.len() > 0
            &&& shown.history_read_succeeded == read
            &&& deadline::is_instant_text(shown.synced_at)
        }),
{
    reveal_strlit("subscription");
    reveal_strlit("unknown");
    reveal_strlit("unsupported");
    assert("subscription"@.len() == 12);
    assert("unknown"@.len() == 7);
    assert("unsupported"@.len() == 11);
}

/// A task of which nothing is known is shown as such, with the reason.
pub proof fn unknown_tasks_claim_nothing(job: Seq<char>, notice: Seq<char>, synced_at: Seq<char>)
    ensures
        ({
            let shown = snapshot::unavailable(job, notice, synced_at);
            &&& shown.job_id == job
            &&& shown.task_type == "unknown"@
            &&& shown.phase == LifecyclePhase::Unknown
            &&& shown.status_label == "Status unavailable"@
            &&& shown.authoritative_status == "unavailable"@
            &&& shown.status_source == "unavailable"@
            &&& shown.responsible_party == "official"@
            &&& shown.next_action == "Try the task query again later"@
            &&& shown.confidence == LifecycleConfidence::Unknown
            &&& !shown.history_available && !shown.history_read_succeeded
            &&& shown.history_event_count == 0 && shown.events.len() == 0
            &&& shown.asp_agent_id is None && shown.review_deadline_at is None
            &&& shown.display.notice == Some(notice)
            &&& shown.display.current_summary == "Task status unavailable"@
            &&& shown.display.handled_by == "Unknown"@
            &&& shown.display.next == "Try again later"@
            &&& shown.display.follow_up.len() == 0
            &&& forall|i: int|
                0 <= i < 5 ==> (#[trigger] shown.display.timeline[i]).marker == "○"@
        }),
{
}

/// The snapshot of a task with a detail takes its provider, its milestones and its
/// deadline from the detail and the events together.
pub proof fn task_snapshots_join_detail_and_events(
    shown: SnapshotView,
    job: Seq<char>,
    detail: JsonView,
    current: StatusView,
    local: bool,
    messages: Seq<MessageView>,
    read: bool,
    deliverable: bool,
)
    requires
        snapshot::is_task_snapshot_of(
            shown,
            job,
            detail,
            current,
            local,
            messages,
            read,
            deliverable,
        ),
    ensures
        ({
            let list = events::history_events(job, messages);
            let found = milestones::review_deadline_of(detail, list, shown.milestones);
            &&& deadline::is_instant_text(shown.synced_at)
            &&& shown.events == list
            &&& shown.milestones == milestones::merged(milestones::folded(list), detail)
            &&& shown.asp_agent_id == milestone_laws::either(
                detail,
                "providerAgentId"@,
                "aspAgentId"@,
            )
            &&& found is None ==> shown.review_deadline_at is None
            &&& found is Some ==> shown.review_deadline_at == Some(text::decimal(found->0 as int))
            &&& local ==> shown.status_source == "local_official_event"@ && shown.confidence
                == LifecycleConfidence::Partial
            &&& !local ==> shown.status_source == "task_api"@ && shown.confidence
                == snapshot::confidence_of(current, list)
            &&& shown.phase == phase::phase_of(current)
            &&& shown.status_label == phase::label_of(current)
            &&& shown.task_type == "one_time"@
            &&& shown.display.deliverable_available == deliverable
            &&& display::is_display_of(
                shown.display,
                display::scene_of(
                    shown.phase,
                    shown.milestones,
                    milestones::projection(detail).token_amount,
                    milestones::projection(detail).token_symbol,
                    list,
                    deliverable,
                ),
                shown.review_deadline_at,
                shown.display.notice,
            )
        }),
{
    milestone_laws::first_of_two_keys(detail, "providerAgentId"@, "aspAgentId"@);
}

} // verus!
