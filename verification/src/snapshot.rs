//! Snapshots of one-time tasks.

use vstd::prelude::*;

use crate::deadline;
use crate::deadline::utc_now_text;
use crate::display;
use crate::display::{build_display, DisplayView, LifecycleDisplay};
use crate::events;
use crate::events::{events_from_history, EventView, HistoryMessage, LifecycleEvent};
use crate::history::LocalHistoryRead;
use crate::json::{Json, JsonView};
use crate::milestones;
use crate::milestones::{
    events_conflict_with_status, fold_milestones, job_type_from_events, merge_detail_milestones,
    project_task_detail, review_deadline, status_from_events, Milestones, MilestonesView,
};
use crate::phase;
use crate::phase::{
    next_action, phase_from_status, responsible_party, status_label, LifecycleConfidence,
    LifecyclePhase,
};
use crate::status;
use crate::status::{Status, StatusView};
use crate::text;
use crate::text::{as_deref, i64_to_text};

verus! {

/// Said where no event fills in the times.
pub const MISSING_HISTORY_NOTICE: &'static str =
    "Some historical times are unavailable; the current stage comes from the latest task details.";

/// Said where the local record stands in for the task details.
pub const LOCAL_RECORD_NOTICE: &'static str =
    "Latest task details are unavailable; showing the latest verified local task record.";

/// Said where the local record does not suffice.
pub const INCOMPLETE_RECORD_NOTICE: &'static str = "Verified local task history is incomplete.";

/// What is known of a one-time task.
#[derive(Debug, PartialEq, Eq)]
pub struct LifecycleSnapshot {
    pub job_id: String,
    pub task_type: String,
    pub phase: LifecyclePhase,
    pub status_label: String,
    pub responsible_party: String,
    pub next_action: String,
    pub confidence: LifecycleConfidence,
    pub authoritative_status: String,
    pub status_source: String,
    pub history_available: bool,
    pub history_read_succeeded: bool,
    pub history_event_count: usize,
    pub asp_agent_id: Option<String>,
    pub review_deadline_at: Option<String>,
    pub milestones: Milestones,
    pub events: Vec<LifecycleEvent>,
    pub display: LifecycleDisplay,
    pub synced_at: String,
}

/// The model of a snapshot.
#[verifier::ext_equal]
pub struct SnapshotView {
    pub job_id: Seq<char>,
    pub task_type: Seq<char>,
    pub phase: LifecyclePhase,
    pub status_label: Seq<char>,
    pub responsible_party: Seq<char>,
    pub next_action: Seq<char>,
    pub confidence: LifecycleConfidence,
    pub authoritative_status: Seq<char>,
    pub status_source: Seq<char>,
    pub history_available: bool,
    pub history_read_succeeded: bool,
    pub history_event_count: nat,
    pub asp_agent_id: Option<Seq<char>>,
    pub review_deadline_at: Option<Seq<char>>,
    pub milestones: MilestonesView,
    pub events: Seq<EventView>,
    pub display: DisplayView,
    pub synced_at: Seq<char>,
}

impl View for LifecycleSnapshot {
    type V = SnapshotView;

    open spec fn view(&self) -> SnapshotView {
        SnapshotView {
            job_id: self.job_id@,
            task_type: self.task_type@,
            phase: self.phase,
            status_label: self.status_label@,
            responsible_party: self.responsible_party@,
            next_action: self.next_action@,
            confidence: self.confidence,
            authoritative_status: self.authoritative_status@,
            status_source: self.status_source@,
            history_available: self.history_available,
            history_read_succeeded: self.history_read_succeeded,
            history_event_count: self.history_event_count as nat,
            asp_agent_id: text::opt_view(self.asp_agent_id),
            review_deadline_at: text::opt_view(self.review_deadline_at),
            milestones: self.milestones@,
            events: events::events_view(self.events@),
            display: self.display@,
            synced_at: self.synced_at@,
        }
    }
}

/// How far a status and the events bear each other out.
pub open spec fn confidence_of(current: StatusView, events: Seq<EventView>) -> LifecycleConfidence {
    if current is Other {
        LifecycleConfidence::Unknown
    } else if milestones::conflicts(current, events) {
        LifecycleConfidence::Conflict
    } else if events.len() == 0 {
        LifecycleConfidence::Partial
    } else {
        LifecycleConfidence::Confirmed
    }
}

/// The snapshot of a status and events, with a display and the time of reading.
pub open spec fn snapshot_of(
    job: Seq<char>,
    current: StatusView,
    events: Seq<EventView>,
    history_read_succeeded: bool,
    display: DisplayView,
    synced_at: Seq<char>,
) -> SnapshotView {
    SnapshotView {
        job_id: job,
        task_type: "one_time"@,
        phase: phase::phase_of(current),
        status_label: phase::label_of(current),
        responsible_party: phase::party_of(phase::phase_of(current)),
        next_action: phase::action_of(phase::phase_of(current)),
        confidence: confidence_of(current, events),
        authoritative_status: status::status_text(current),
        status_source: "task_api"@,
        history_available: events.len() > 0,
        history_read_succeeded,
        history_event_count: events.len(),
        asp_agent_id: None,
        review_deadline_at: None,
        milestones: milestones::folded(events),
        events,
        display,
        synced_at,
    }
}

/// Builds the snapshot of a status and events, with a display and the time of
/// reading.
pub fn assemble_snapshot(
    job_id: &str,
    authoritative_status: &Status,
    events: Vec<LifecycleEvent>,
    history_read_succeeded: bool,
    display: LifecycleDisplay,
    synced_at: String,
) -> (r: LifecycleSnapshot)
    ensures
        r@ == snapshot_of(
            job_id@,
            authoritative_status@,
            events::events_view(events@),
            history_read_succeeded,
            display@,
            synced_at@,
        ),
{
    let phase = phase_from_status(authoritative_status);
    let history_available = events.len() > 0;
    let confidence = if !authoritative_status.is_known() {
        LifecycleConfidence::Unknown
    } else if events_conflict_with_status(authoritative_status, events.as_slice()) {
        LifecycleConfidence::Conflict
    } else if !history_available {
        LifecycleConfidence::Partial
    } else {
        LifecycleConfidence::Confirmed
    };
    LifecycleSnapshot {
        job_id: job_id.to_string(),
        task_type: "one_time".to_string(),
        phase,
        status_label: status_label(authoritative_status).to_string(),
        responsible_party: responsible_party(phase).to_string(),
        next_action: next_action(phase).to_string(),
        confidence,
        authoritative_status: authoritative_status.as_str().to_string(),
        status_source: "task_api".to_string(),
        history_available,
        history_read_succeeded,
        history_event_count: events.len(),
        asp_agent_id: None,
        review_deadline_at: None,
        milestones: fold_milestones(events.as_slice()),
        events,
        display,
        synced_at,
    }
}

/// The notice on missing times: said where there are no events.
pub open spec fn gap_notice(events: Seq<EventView>) -> Option<Seq<char>> {
    if events.len() == 0 {
        Some(MISSING_HISTORY_NOTICE@)
    } else {
        None
    }
}

fn gap_notice_text(history_available: bool) -> (r: Option<&'static str>)
    ensures
        text::opt_str_view(r) == (if history_available {
            None
        } else {
            Some(MISSING_HISTORY_NOTICE@)
        }),
{
    if history_available {
        None
    } else {
        Some(MISSING_HISTORY_NOTICE)
    }
}

/// Whether a snapshot is that of a status and a message history.
pub open spec fn is_snapshot_of(
    snapshot: SnapshotView,
    job: Seq<char>,
    current: StatusView,
    messages: Seq<events::MessageView>,
    history_read_succeeded: bool,
) -> bool {
    let events = events::history_events(job, messages);
    &&& deadline::is_instant_text(snapshot.synced_at)
    &&& snapshot == snapshot_of(
        job,
        current,
        events,
        history_read_succeeded,
        snapshot.display,
        snapshot.synced_at,
    )
    &&& display::is_display_of(
        snapshot.display,
        display::scene_of(
            phase::phase_of(current),
            milestones::folded(events),
            None,
            None,
            events,
            false,
        ),
        None,
        gap_notice(events),
    )
}

/// Builds the snapshot of a status and a message history that was read.
pub fn build_snapshot(
    job_id: &str,
    authoritative_status: &Status,
    messages: &[HistoryMessage],
) -> (r: LifecycleSnapshot)
    ensures
        is_snapshot_of(
            r@,
            job_id@,
            authoritative_status@,
            events::messages_view(messages@),
            true,
        ),
{
    build_snapshot_with_history_state(job_id, authoritative_status, messages, true)
}

/// Builds the snapshot of a status and a message history, and says whether the
/// history could be read. The time of reading comes from the clock.
pub fn build_snapshot_with_history_state(
    job_id: &str,
    authoritative_status: &Status,
    messages: &[HistoryMessage],
    history_read_succeeded: bool,
) -> (r: LifecycleSnapshot)
    ensures
        is_snapshot_of(
            r@,
            job_id@,
            authoritative_status@,
            events::messages_view(messages@),
            history_read_succeeded,
        ),
{
    let events = events_from_history(job_id, messages);
    let milestones = fold_milestones(events.as_slice());
    let display = build_display(
        phase_from_status(authoritative_status),
        &milestones,
        None,
        None,
        None,
        events.as_slice(),
        false,
        gap_notice_text(events.len() > 0),
    );
    assemble_snapshot(
        job_id,
        authoritative_status,
        events,
        history_read_succeeded,
        display,
        utc_now_text(),
    )
}

/// The status of a task of which nothing is known.
pub open spec fn unavailable_status() -> StatusView {
    StatusView::Other("unavailable"@)
}

/// The snapshot of a task of which nothing is known, read at some time.
pub open spec fn unavailable(
    job: Seq<char>,
    notice: Seq<char>,
    synced_at: Seq<char>,
) -> SnapshotView {
    let scene = display::scene_of(
        LifecyclePhase::Unknown,
        milestones::no_milestones(),
        None,
        None,
        Seq::empty(),
        false,
    );
    let drawn = snapshot_of(
        job,
        unavailable_status(),
        Seq::empty(),
        false,
        display::display_of(scene, Some(notice)),
        synced_at,
    );
    SnapshotView { task_type: "unknown"@, status_source: "unavailable"@, ..drawn }
}

/// Builds the snapshot of a task of which nothing is known, with the reason.
pub fn unavailable_snapshot(job_id: &str, notice: &str) -> (r: LifecycleSnapshot)
    ensures
        r@ == unavailable(job_id@, notice@, r@.synced_at),
        deadline::is_instant_text(r@.synced_at),
{
    let status = Status::Other("unavailable".to_string());
    let messages: Vec<HistoryMessage> = Vec::new();
    let mut snapshot = build_snapshot_with_history_state(
        job_id,
        &status,
        messages.as_slice(),
        false,
    );
    proof {
        let none: Seq<EventView> = Seq::empty();
        assert(events::messages_view(messages@) =~= Seq::empty());
        assert(events::history_events(job_id@, Seq::empty()) =~= none);
        assert(milestones::folded(none) =~= milestones::no_milestones());
        lemma_no_times();
    }
    snapshot.task_type = "unknown".to_string();
    snapshot.status_source = "unavailable".to_string();
    snapshot.display.notice = Some(notice.to_string());
    snapshot
}

/// Without milestones and deadline there are no local times.
proof fn lemma_no_times()
    ensures
        forall|times: display::LocalTimesView| #[trigger]
            display::are_times_of(times, milestones::no_milestones(), None) ==> times == (
            display::LocalTimesView {
                milestones: milestones::no_milestones(),
                review_deadline: None,
            }),
{
    let none = display::LocalTimesView {
        milestones: milestones::no_milestones(),
        review_deadline: None,
    };
    assert forall|times: display::LocalTimesView| #[trigger]
        display::are_times_of(times, milestones::no_milestones(), None) implies times == none by {
        assert(times =~= none);
    }
}

/// A deadline as a text.
pub open spec fn deadline_text(seconds: Option<i64>) -> Option<Seq<char>> {
    match seconds {
        Some(n) => Some(text::decimal(n as int)),
        None => None,
    }
}

fn deadline_to_text(seconds: Option<i64>) -> (r: Option<String>)
    ensures
        text::opt_view(r) == deadline_text(seconds),
{
    match seconds {
        Some(n) => Some(i64_to_text(n)),
        None => None,
    }
}

/// The name of the type of a task that is not known to be a one-time task.
pub open spec fn other_type_name(job_type: Option<i32>) -> Seq<char> {
    match job_type {
        Some(n) => if n == 1 {
            "subscription"@
        } else {
            "unsupported"@
        },
        None => "unknown"@,
    }
}

/// The name of the type of a task that is not known to be a one-time task.
pub fn other_type_label(job_type: Option<i32>) -> (r: &'static str)
    ensures
        r@ == other_type_name(job_type),
{
    match job_type {
        Some(n) => if n == 1 {
            "subscription"
        } else {
            "unsupported"
        },
        None => "unknown",
    }
}

/// The status that local events alone establish: that of a task which they say
/// is a one-time task.
pub open spec fn local_status(events: Seq<EventView>) -> Option<StatusView> {
    if milestones::latest_job_type(events) == Some(0i32) {
        milestones::latest_status(events)
    } else {
        None
    }
}

/// The deadline that local events alone establish.
pub open spec fn local_deadline(events: Seq<EventView>) -> Option<Seq<char>> {
    deadline_text(
        milestones::review_deadline_of(JsonView::Null, events, milestones::folded(events)),
    )
}

/// Whether a snapshot is the one that local messages alone support.
pub open spec fn is_fallback_of(
    snapshot: SnapshotView,
    job: Seq<char>,
    messages: Seq<events::MessageView>,
    read_succeeded: bool,
    deliverable_available: bool,
) -> bool {
    let events = events::history_events(job, messages);
    &&& deadline::is_instant_text(snapshot.synced_at)
    &&& match local_status(events) {
        Some(current) => {
            &&& snapshot == (SnapshotView {
                status_source: "local_official_event"@,
                confidence: LifecycleConfidence::Partial,
                review_deadline_at: local_deadline(events),
                ..snapshot_of(
                    job,
                    current,
                    events,
                    read_succeeded,
                    snapshot.display,
                    snapshot.synced_at,
                )
            })
            &&& display::is_display_of(
                snapshot.display,
                display::scene_of(
                    phase::phase_of(current),
                    milestones::folded(events),
                    None,
                    None,
                    events,
                    deliverable_available,
                ),
                local_deadline(events),
                Some(LOCAL_RECORD_NOTICE@),
            )
        },
        None => snapshot == (SnapshotView {
            task_type: other_type_name(milestones::latest_job_type(events)),
            history_read_succeeded: read_succeeded,
            history_available: events.len() > 0,
            history_event_count: events.len(),
            events,
            ..unavailable(job, INCOMPLETE_RECORD_NOTICE@, snapshot.synced_at)
        }),
    }
}

/// Builds the snapshot that the local messages alone support. Without a status of
/// a one-time task it says what is missing.
pub fn snapshot_from_local_fallback(
    job_id: &str,
    local: &LocalHistoryRead,
    deliverable_available: bool,
) -> (r: LifecycleSnapshot)
    ensures
        is_fallback_of(
            r@,
            job_id@,
            events::messages_view(local.messages@),
            local.read_succeeded,
            deliverable_available,
        ),
{
    let events = events_from_history(job_id, local.messages.as_slice());
    let task_type = job_type_from_events(events.as_slice());
    let status = match task_type {
        Some(0) => status_from_events(events.as_slice()),
        _ => None,
    };
    let status = match status {
        Some(status) => status,
        None => {
            let mut snapshot = unavailable_snapshot(job_id, INCOMPLETE_RECORD_NOTICE);
            snapshot.task_type = other_type_label(task_type).to_string();
            snapshot.history_read_succeeded = local.read_succeeded;
            snapshot.history_available = events.len() > 0;
            snapshot.history_event_count = events.len();
            snapshot.events = events;
            return snapshot;
        },
    };
    let mut snapshot = build_snapshot_with_history_state(
        job_id,
        &status,
        local.messages.as_slice(),
        local.read_succeeded,
    );
    snapshot.status_source = "local_official_event".to_string();
    snapshot.confidence = LifecycleConfidence::Partial;
    let deadline = deadline_to_text(
        review_deadline(&Json::Null, snapshot.events.as_slice(), &snapshot.milestones),
    );
    snapshot.display = build_display(
        snapshot.phase,
        &snapshot.milestones,
        as_deref(&deadline),
        None,
        None,
        snapshot.events.as_slice(),
        deliverable_available,
        Some(LOCAL_RECORD_NOTICE),
    );
    snapshot.review_deadline_at = deadline;
    snapshot
}

/// The milestones of a task: those of its events, with gaps filled from its
/// detail.
pub open spec fn task_milestones(detail: JsonView, events: Seq<EventView>) -> MilestonesView {
    milestones::merged(milestones::folded(events), detail)
}

/// The review deadline of a task.
pub open spec fn task_deadline(detail: JsonView, events: Seq<EventView>) -> Option<Seq<char>> {
    deadline_text(
        milestones::review_deadline_of(detail, events, task_milestones(detail, events)),
    )
}

/// Whether a snapshot is that of a one-time task with a detail, a status and a
/// message history.
pub open spec fn is_task_snapshot_of(
    snapshot: SnapshotView,
    job: Seq<char>,
    detail: JsonView,
    current: StatusView,
    status_from_local: bool,
    messages: Seq<events::MessageView>,
    history_read_succeeded: bool,
    deliverable_available: bool,
) -> bool {
    let events = events::history_events(job, messages);
    let projected = milestones::projection(detail);
    let drawn = snapshot_of(
        job,
        current,
        events,
        history_read_succeeded,
        snapshot.display,
        snapshot.synced_at,
    );
    &&& deadline::is_instant_text(snapshot.synced_at)
    &&& snapshot == (SnapshotView {
        status_source: if status_from_local {
            "local_official_event"@
        } else {
            "task_api"@
        },
        confidence: if status_from_local {
            LifecycleConfidence::Partial
        } else {
            drawn.confidence
        },
        asp_agent_id: projected.provider_agent_id,
        milestones: task_milestones(detail, events),
        review_deadline_at: task_deadline(detail, events),
        ..drawn
    })
    &&& display::is_display_of(
        snapshot.display,
        display::scene_of(
            phase::phase_of(current),
            task_milestones(detail, events),
            projected.token_amount,
            projected.token_symbol,
            events,
            deliverable_available,
        ),
        task_deadline(detail, events),
        gap_notice(events),
    )
}

/// Builds the snapshot of a one-time task from its detail, its status and its
/// message history.
pub fn build_task_snapshot(
    job_id: &str,
    detail: &Json,
    current: &Status,
    status_from_local: bool,
    messages: &[HistoryMessage],
    history_read_succeeded: bool,
    deliverable_available: bool,
) -> (r: LifecycleSnapshot)
    ensures
        is_task_snapshot_of(
            r@,
            job_id@,
            detail@,
            current@,
            status_from_local,
            events::messages_view(messages@),
            history_read_succeeded,
            deliverable_available,
        ),
{
    let projected = project_task_detail(detail);
    let mut snapshot = build_snapshot_with_history_state(
        job_id,
        current,
        messages,
        history_read_succeeded,
    );
    if status_from_local {
        snapshot.status_source = "local_official_event".to_string();
        snapshot.confidence = LifecycleConfidence::Partial;
    }
    merge_detail_milestones(&mut snapshot.milestones, detail);
    let deadline = deadline_to_text(
        review_deadline(detail, snapshot.events.as_slice(), &snapshot.milestones),
    );
    snapshot.display = build_display(
        snapshot.phase,
        &snapshot.milestones,
        as_deref(&deadline),
        as_deref(&projected.token_amount),
        as_deref(&projected.token_symbol),
        snapshot.events.as_slice(),
        deliverable_available,
        gap_notice_text(snapshot.history_available),
    );
    snapshot.review_deadline_at = deadline;
    snapshot.asp_agent_id = projected.provider_agent_id;
    snapshot
}

/// The current phase and its label come from the status alone: a history can
/// change neither.
pub proof fn history_does_not_change_the_phase(
    one: SnapshotView,
    other: SnapshotView,
    job: Seq<char>,
    current: StatusView,
    messages: Seq<events::MessageView>,
    other_messages: Seq<events::MessageView>,
    read: bool,
    other_read: bool,
)
    requires
        is_snapshot_of(one, job, current, messages, read),
        is_snapshot_of(other, job, current, other_messages, other_read),
    ensures
        one.phase == other.phase,
        one.status_label == other.status_label,
        one.responsible_party == other.responsible_party,
        one.next_action == other.next_action,
        one.authoritative_status == other.authoritative_status,
{
}

/// The phase of a one-time task, its label and whose turn it is come from its
/// status, and the provider from its detail: a history can change none of them.
pub proof fn history_does_not_change_a_task(
    one: SnapshotView,
    other: SnapshotView,
    job: Seq<char>,
    detail: JsonView,
    current: StatusView,
    status_from_local: bool,
    messages: Seq<events::MessageView>,
    other_messages: Seq<events::MessageView>,
    read: bool,
    other_read: bool,
    deliverable_available: bool,
)
    requires
        is_task_snapshot_of(
            one,
            job,
            detail,
            current,
            status_from_local,
            messages,
            read,
            deliverable_available,
        ),
        is_task_snapshot_of(
            other,
            job,
            detail,
            current,
            status_from_local,
            other_messages,
            other_read,
            deliverable_available,
        ),
    ensures
        one.phase == other.phase,
        one.status_label == other.status_label,
        one.responsible_party == other.responsible_party,
        one.next_action == other.next_action,
        one.authoritative_status == other.authoritative_status,
        one.status_source == other.status_source,
        one.asp_agent_id == other.asp_agent_id,
{
}

/// A history without official events of the job is not reported as available,
/// and a known status without one is only partly confirmed.
pub proof fn empty_history_is_partial(
    snapshot: SnapshotView,
    job: Seq<char>,
    current: StatusView,
    messages: Seq<events::MessageView>,
    read: bool,
)
    requires
        is_snapshot_of(snapshot, job, current, messages, read),
        events::history_events(job, messages).len() == 0,
    ensures
        !snapshot.history_available,
        snapshot.history_event_count == 0,
        snapshot.history_read_succeeded == read,
        snapshot.confidence == (if current is Other {
            LifecycleConfidence::Unknown
        } else {
            LifecycleConfidence::Partial
        }),
{
}

/// A local record never counts as more than partly confirmed.
pub proof fn local_record_is_never_confirmed(
    snapshot: SnapshotView,
    job: Seq<char>,
    messages: Seq<events::MessageView>,
    read: bool,
    deliverable: bool,
)
    requires
        is_fallback_of(snapshot, job, messages, read, deliverable),
    ensures
        snapshot.confidence == LifecycleConfidence::Partial || snapshot.confidence
            == LifecycleConfidence::Unknown,
{
}

} // verus!
