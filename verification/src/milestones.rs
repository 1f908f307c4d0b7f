//! Milestones of a one-time task, and what follows from its events and status.

use vstd::prelude::*;

use crate::deadline;
use crate::deadline::{parse_optional_timestamp, timestamp_field, REVIEW_WINDOW_SECONDS};
use crate::events;
use crate::events::{job_type_field, EventView, LifecycleEvent, LifecycleEventKind};
use crate::json;
use crate::json::{detail_string, or_int, scalar_i32, Json, JsonView};
use crate::status;
use crate::status::{Status, StatusView};
use crate::text;
use crate::text::{as_deref, parse_i32, to_ascii_lower, trim};

verus! {

/// The times at which a one-time task reached its milestones, as far as known.
#[derive(Debug, PartialEq, Eq)]
pub struct Milestones {
    pub created_at: Option<String>,
    pub accepted_at: Option<String>,
    pub submitted_at: Option<String>,
    pub completed_at: Option<String>,
    pub rejected_at: Option<String>,
    pub dispute_requested_at: Option<String>,
    pub disputed_at: Option<String>,
    pub dispute_resolved_at: Option<String>,
    pub review_expired_at: Option<String>,
    pub reject_expired_at: Option<String>,
    pub closed_at: Option<String>,
    pub expired_at: Option<String>,
    pub refunded_at: Option<String>,
    pub failed_at: Option<String>,
}

/// The model of milestones.
#[verifier::ext_equal]
pub struct MilestonesView {
    pub created_at: Option<Seq<char>>,
    pub accepted_at: Option<Seq<char>>,
    pub submitted_at: Option<Seq<char>>,
    pub completed_at: Option<Seq<char>>,
    pub rejected_at: Option<Seq<char>>,
    pub dispute_requested_at: Option<Seq<char>>,
    pub disputed_at: Option<Seq<char>>,
    pub dispute_resolved_at: Option<Seq<char>>,
    pub review_expired_at: Option<Seq<char>>,
    pub reject_expired_at: Option<Seq<char>>,
    pub closed_at: Option<Seq<char>>,
    pub expired_at: Option<Seq<char>>,
    pub refunded_at: Option<Seq<char>>,
    pub failed_at: Option<Seq<char>>,
}

impl View for Milestones {
    type V = MilestonesView;

    open spec fn view(&self) -> MilestonesView {
        MilestonesView {
            created_at: text::opt_view(self.created_at),
            accepted_at: text::opt_view(self.accepted_at),
            submitted_at: text::opt_view(self.submitted_at),
            completed_at: text::opt_view(self.completed_at),
            rejected_at: text::opt_view(self.rejected_at),
            dispute_requested_at: text::opt_view(self.dispute_requested_at),
            disputed_at: text::opt_view(self.disputed_at),
            dispute_resolved_at: text::opt_view(self.dispute_resolved_at),
            review_expired_at: text::opt_view(self.review_expired_at),
            reject_expired_at: text::opt_view(self.reject_expired_at),
            closed_at: text::opt_view(self.closed_at),
            expired_at: text::opt_view(self.expired_at),
            refunded_at: text::opt_view(self.refunded_at),
            failed_at: text::opt_view(self.failed_at),
        }
    }
}

impl Clone for Milestones {
    fn clone(&self) -> (r: Milestones)
        ensures
            r@ == self@,
    {
        Milestones {
            created_at: self.created_at.clone(),
            accepted_at: self.accepted_at.clone(),
            submitted_at: self.submitted_at.clone(),
            completed_at: self.completed_at.clone(),
            rejected_at: self.rejected_at.clone(),
            dispute_requested_at: self.dispute_requested_at.clone(),
            disputed_at: self.disputed_at.clone(),
            dispute_resolved_at: self.dispute_resolved_at.clone(),
            review_expired_at: self.review_expired_at.clone(),
            reject_expired_at: self.reject_expired_at.clone(),
            closed_at: self.closed_at.clone(),
            expired_at: self.expired_at.clone(),
            refunded_at: self.refunded_at.clone(),
            failed_at: self.failed_at.clone(),
        }
    }
}

/// Milestones of which none is known.
pub open spec fn no_milestones() -> MilestonesView {
    MilestonesView {
        created_at: None,
        accepted_at: None,
        submitted_at: None,
        completed_at: None,
        rejected_at: None,
        dispute_requested_at: None,
        disputed_at: None,
        dispute_resolved_at: None,
        review_expired_at: None,
        reject_expired_at: None,
        closed_at: None,
        expired_at: None,
        refunded_at: None,
        failed_at: None,
    }
}

impl Default for Milestones {
    fn default() -> (r: Milestones)
        ensures
            r@ == no_milestones(),
    {
        Milestones {
            created_at: None,
            accepted_at: None,
            submitted_at: None,
            completed_at: None,
            rejected_at: None,
            dispute_requested_at: None,
            disputed_at: None,
            dispute_resolved_at: None,
            review_expired_at: None,
            reject_expired_at: None,
            closed_at: None,
            expired_at: None,
            refunded_at: None,
            failed_at: None,
        }
    }
}

/// The time of the first event of a kind that has one.
pub open spec fn first_time(events: Seq<EventView>, kind: LifecycleEventKind) -> Option<Seq<char>>
    decreases events.len(),
{
    if events.len() == 0 {
        None
    } else if events[0].kind == kind && events[0].occurred_at is Some {
        events[0].occurred_at
    } else {
        first_time(events.skip(1), kind)
    }
}

/// The milestones that a list of events reaches: each at the first known time
/// of its kind of event.
pub open spec fn folded(events: Seq<EventView>) -> MilestonesView {
    MilestonesView {
        created_at: first_time(events, LifecycleEventKind::Created),
        accepted_at: first_time(events, LifecycleEventKind::Accepted),
        submitted_at: first_time(events, LifecycleEventKind::Submitted),
        completed_at: first_time(events, LifecycleEventKind::Completed),
        rejected_at: first_time(events, LifecycleEventKind::Rejected),
        dispute_requested_at: first_time(events, LifecycleEventKind::DisputeRequested),
        disputed_at: first_time(events, LifecycleEventKind::Disputed),
        dispute_resolved_at: first_time(events, LifecycleEventKind::DisputeResolved),
        review_expired_at: first_time(events, LifecycleEventKind::ReviewExpired),
        reject_expired_at: first_time(events, LifecycleEventKind::RejectExpired),
        closed_at: first_time(events, LifecycleEventKind::Closed),
        expired_at: first_time(events, LifecycleEventKind::Expired),
        refunded_at: first_time(events, LifecycleEventKind::Refunded),
        failed_at: first_time(events, LifecycleEventKind::Failed),
    }
}

fn first_time_of(events: &[LifecycleEvent], kind: LifecycleEventKind) -> (r: Option<String>)
    ensures
        text::opt_view(r) == first_time(events::events_view(events@), kind),
{
    let ghost all = events::events_view(events@);
    assert(all.skip(0) =~= all);
    let mut i: usize = 0;
    while i < events.len()
        invariant
            i <= events@.len(),
            all == events::events_view(events@),
            first_time(all, kind) == first_time(all.skip(i as int), kind),
        decreases events@.len() - i,
    {
        assert(all.skip(i as int)[0] == events@[i as int]@);
        if events[i].kind == kind && events[i].occurred_at.is_some() {
            return events[i].occurred_at.clone();
        }
        assert(all.skip(i as int).skip(1) =~= all.skip(i + 1));
        i = i + 1;
    }
    None
}

/// The milestones that a list of events reaches.
pub fn fold_milestones(events: &[LifecycleEvent]) -> (r: Milestones)
    ensures
        r@ == folded(events::events_view(events@)),
{
    Milestones {
        created_at: first_time_of(events, LifecycleEventKind::Created),
        accepted_at: first_time_of(events, LifecycleEventKind::Accepted),
        submitted_at: first_time_of(events, LifecycleEventKind::Submitted),
        completed_at: first_time_of(events, LifecycleEventKind::Completed),
        rejected_at: first_time_of(events, LifecycleEventKind::Rejected),
        dispute_requested_at: first_time_of(events, LifecycleEventKind::DisputeRequested),
        disputed_at: first_time_of(events, LifecycleEventKind::Disputed),
        dispute_resolved_at: first_time_of(events, LifecycleEventKind::DisputeResolved),
        review_expired_at: first_time_of(events, LifecycleEventKind::ReviewExpired),
        reject_expired_at: first_time_of(events, LifecycleEventKind::RejectExpired),
        closed_at: first_time_of(events, LifecycleEventKind::Closed),
        expired_at: first_time_of(events, LifecycleEventKind::Expired),
        refunded_at: first_time_of(events, LifecycleEventKind::Refunded),
        failed_at: first_time_of(events, LifecycleEventKind::Failed),
    }
}

/// Milestones with the gaps filled that a task detail can fill.
pub open spec fn merged(milestones: MilestonesView, detail: JsonView) -> MilestonesView {
    MilestonesView {
        created_at: text::or_else_view(
            milestones.created_at,
            json::first_text(detail, seq!["createdAt"@, "createTime"@]),
        ),
        accepted_at: text::or_else_view(
            milestones.accepted_at,
            json::first_text(detail, seq!["acceptedAt"@, "acceptTime"@]),
        ),
        submitted_at: text::or_else_view(
            milestones.submitted_at,
            json::first_text(detail, seq!["submittedAt"@, "submitTime"@]),
        ),
        completed_at: text::or_else_view(
            milestones.completed_at,
            json::first_text(detail, seq!["completedAt"@, "completeTime"@]),
        ),
        rejected_at: text::or_else_view(
            milestones.rejected_at,
            json::first_text(detail, seq!["rejectedAt"@, "rejectTime"@]),
        ),
        dispute_requested_at: milestones.dispute_requested_at,
        disputed_at: text::or_else_view(
            milestones.disputed_at,
            json::first_text(detail, seq!["disputedAt"@, "disputeTime"@]),
        ),
        dispute_resolved_at: text::or_else_view(
            milestones.dispute_resolved_at,
            json::first_text(detail, seq!["disputeResolvedAt"@, "arbitrationCompletedAt"@]),
        ),
        review_expired_at: milestones.review_expired_at,
        reject_expired_at: milestones.reject_expired_at,
        closed_at: text::or_else_view(
            milestones.closed_at,
            json::first_text(detail, seq!["closedAt"@, "closeTime"@]),
        ),
        expired_at: text::or_else_view(
            milestones.expired_at,
            json::first_text(detail, seq!["expiredAt"@]),
        ),
        refunded_at: text::or_else_view(
            milestones.refunded_at,
            json::first_text(detail, seq!["refundedAt"@, "refundTime"@]),
        ),
        failed_at: text::or_else_view(
            milestones.failed_at,
            json::first_text(detail, seq!["failedAt"@, "failureTime"@]),
        ),
    }
}

fn fill_from_detail(slot: &mut Option<String>, detail: &Json, keys: &[&str])
    ensures
        forall|names: Seq<Seq<char>>|
            names =~= json::keys_view(keys@) ==> text::opt_view(*final(slot))
                == text::or_else_view(
                text::opt_view(*old(slot)),
                #[trigger] json::first_text(detail@, names),
            ),
{
    if slot.is_none() {
        *slot = detail_string(detail, keys);
    }
}

/// Fills the gaps of milestones from a task detail; what is known stays.
pub fn merge_detail_milestones(milestones: &mut Milestones, detail: &Json)
    ensures
        final(milestones)@ == merged(old(milestones)@, detail@),
{
    fill_from_detail(&mut milestones.created_at, detail, &["createdAt", "createTime"]);
    fill_from_detail(&mut milestones.accepted_at, detail, &["acceptedAt", "acceptTime"]);
    fill_from_detail(&mut milestones.submitted_at, detail, &["submittedAt", "submitTime"]);
    fill_from_detail(&mut milestones.completed_at, detail, &["completedAt", "completeTime"]);
    fill_from_detail(&mut milestones.rejected_at, detail, &["rejectedAt", "rejectTime"]);
    fill_from_detail(&mut milestones.disputed_at, detail, &["disputedAt", "disputeTime"]);
    fill_from_detail(
        &mut milestones.dispute_resolved_at,
        detail,
        &["disputeResolvedAt", "arbitrationCompletedAt"],
    );
    fill_from_detail(&mut milestones.closed_at, detail, &["closedAt", "closeTime"]);
    fill_from_detail(&mut milestones.expired_at, detail, &["expiredAt"]);
    fill_from_detail(&mut milestones.refunded_at, detail, &["refundedAt", "refundTime"]);
    fill_from_detail(&mut milestones.failed_at, detail, &["failedAt", "failureTime"]);
}

/// The last event of a kind.
pub open spec fn last_of_kind(events: Seq<EventView>, kind: LifecycleEventKind) -> Option<
    EventView,
>
    decreases events.len(),
{
    if events.len() == 0 {
        None
    } else if events.last().kind == kind {
        Some(events.last())
    } else {
        last_of_kind(events.drop_last(), kind)
    }
}

/// The deadline that the last submission event states.
pub open spec fn submission_deadline(events: Seq<EventView>) -> Option<i64> {
    match last_of_kind(events, LifecycleEventKind::Submitted) {
        Some(event) => deadline::opt_timestamp(event.deadline_at),
        None => None,
    }
}

/// The end of the review window that opens with a submission.
pub open spec fn review_window_end(submitted_at: Option<Seq<char>>) -> Option<i64> {
    match deadline::opt_timestamp(submitted_at) {
        Some(seconds) => if seconds + REVIEW_WINDOW_SECONDS <= i64::MAX {
            Some((seconds + REVIEW_WINDOW_SECONDS) as i64)
        } else {
            None
        },
        None => None,
    }
}

/// The deadline of a review: what the detail states, else what the submission
/// event states, else the end of the review window.
pub open spec fn review_deadline_of(
    detail: JsonView,
    events: Seq<EventView>,
    milestones: MilestonesView,
) -> Option<i64> {
    text::or_else_view(
        deadline::timestamp_at(detail, "reviewDeadlineAt"@),
        text::or_else_view(
            deadline::timestamp_at(detail, "reviewWindowEndsAt"@),
            text::or_else_view(
                deadline::timestamp_at(detail, "expireTime"@),
                text::or_else_view(
                    submission_deadline(events),
                    review_window_end(milestones.submitted_at),
                ),
            ),
        ),
    )
}

fn submission_deadline_of(events: &[LifecycleEvent]) -> (r: Option<i64>)
    ensures
        r == submission_deadline(events::events_view(events@)),
{
    let ghost all = events::events_view(events@);
    let mut n: usize = events.len();
    assert(all.take(n as int) =~= all);
    while n > 0
        invariant
            n <= events@.len(),
            all == events::events_view(events@),
            last_of_kind(all, LifecycleEventKind::Submitted) == last_of_kind(
                all.take(n as int),
                LifecycleEventKind::Submitted,
            ),
        decreases n,
    {
        assert(all.take(n as int).last() == events@[n - 1]@);
        if events[n - 1].kind == LifecycleEventKind::Submitted {
            return parse_optional_timestamp(as_deref(&events[n - 1].deadline_at));
        }
        assert(all.take(n as int).drop_last() =~= all.take(n - 1));
        n = n - 1;
    }
    None
}

/// The deadline of a review, in seconds.
pub fn review_deadline(detail: &Json, events: &[LifecycleEvent], milestones: &Milestones) -> (r:
    Option<i64>)
    ensures
        r == review_deadline_of(detail@, events::events_view(events@), milestones@),
{
    let window = match parse_optional_timestamp(as_deref(&milestones.submitted_at)) {
        Some(seconds) => seconds.checked_add(REVIEW_WINDOW_SECONDS),
        None => None,
    };
    or_int(
        timestamp_field(detail, "reviewDeadlineAt"),
        or_int(
            timestamp_field(detail, "reviewWindowEndsAt"),
            or_int(
                timestamp_field(detail, "expireTime"),
                or_int(submission_deadline_of(events), window),
            ),
        ),
    )
}

/// The status that a kind of event implies.
pub open spec fn status_of_kind(kind: LifecycleEventKind) -> Option<StatusView> {
    match kind {
        LifecycleEventKind::AspSelected => Some(StatusView::Created),
        LifecycleEventKind::Created => Some(StatusView::Created),
        LifecycleEventKind::ProviderRejected => Some(StatusView::Created),
        LifecycleEventKind::Accepted => Some(StatusView::Accepted),
        LifecycleEventKind::Submitted => Some(StatusView::Submitted),
        LifecycleEventKind::ReviewExpired => Some(StatusView::Submitted),
        LifecycleEventKind::Rejected => Some(StatusView::Rejected),
        LifecycleEventKind::DisputeRequested => Some(StatusView::Rejected),
        LifecycleEventKind::RejectExpired => Some(StatusView::Rejected),
        LifecycleEventKind::Disputed => Some(StatusView::Disputed),
        LifecycleEventKind::Completed => Some(StatusView::Completed),
        LifecycleEventKind::Closed => Some(StatusView::Close),
        LifecycleEventKind::Expired => Some(StatusView::Expired),
        LifecycleEventKind::Refunded => Some(StatusView::Failed),
        LifecycleEventKind::Failed => Some(StatusView::Failed),
        _ => None,
    }
}

/// The status that an event's own status text states: by its code, or by a
/// known name.
pub open spec fn stated_status(raw: Option<Seq<char>>) -> Option<StatusView> {
    match raw {
        Some(t) => match text::written_i32(t) {
            Some(code) => Some(status::status_of_code(code)),
            None => {
                let named = status::status_of_text(text::ascii_lower(text::trimmed(t)));
                if named is Other {
                    None
                } else {
                    Some(named)
                }
            },
        },
        None => None,
    }
}

/// The status that an event states or implies.
pub open spec fn event_status(event: EventView) -> Option<StatusView> {
    text::or_else_view(stated_status(event.authoritative_status), status_of_kind(event.kind))
}

/// The status that an event states or implies.
pub fn status_from_event(event: &LifecycleEvent) -> (r: Option<Status>)
    ensures
        status::opt_status(r) == event_status(event@),
{
    if let Some(raw) = &event.authoritative_status {
        if let Some(code) = parse_i32(raw.as_str()) {
            return Some(Status::from_int(code));
        }
        let lower = to_ascii_lower(trim(raw.as_str()));
        let parsed = Status::parse(lower.as_str());
        if parsed.is_known() {
            return Some(parsed);
        }
    }
    match event.kind {
        LifecycleEventKind::AspSelected => Some(Status::Created),
        LifecycleEventKind::Created => Some(Status::Created),
        LifecycleEventKind::ProviderRejected => Some(Status::Created),
        LifecycleEventKind::Accepted => Some(Status::Accepted),
        LifecycleEventKind::Submitted => Some(Status::Submitted),
        LifecycleEventKind::ReviewExpired => Some(Status::Submitted),
        LifecycleEventKind::Rejected => Some(Status::Rejected),
        LifecycleEventKind::DisputeRequested => Some(Status::Rejected),
        LifecycleEventKind::RejectExpired => Some(Status::Rejected),
        LifecycleEventKind::Disputed => Some(Status::Disputed),
        LifecycleEventKind::Completed => Some(Status::Completed),
        LifecycleEventKind::Closed => Some(Status::Close),
        LifecycleEventKind::Expired => Some(Status::Expired),
        LifecycleEventKind::Refunded => Some(Status::Failed),
        LifecycleEventKind::Failed => Some(Status::Failed),
        _ => None,
    }
}

/// The type of the job that the latest event with one states.
pub open spec fn latest_job_type(events: Seq<EventView>) -> Option<i32>
    decreases events.len(),
{
    if events.len() == 0 {
        None
    } else {
        text::or_else_view(events.last().job_type, latest_job_type(events.drop_last()))
    }
}

/// The status of the latest event that has one.
pub open spec fn latest_status(events: Seq<EventView>) -> Option<StatusView>
    decreases events.len(),
{
    if events.len() == 0 {
        None
    } else {
        text::or_else_view(event_status(events.last()), latest_status(events.drop_last()))
    }
}

/// The type of the job that the latest event with one states.
pub fn job_type_from_events(events: &[LifecycleEvent]) -> (r: Option<i32>)
    ensures
        r == latest_job_type(events::events_view(events@)),
{
    let ghost all = events::events_view(events@);
    let mut n: usize = events.len();
    assert(all.take(n as int) =~= all);
    while n > 0
        invariant
            n <= events@.len(),
            all == events::events_view(events@),
            latest_job_type(all) == latest_job_type(all.take(n as int)),
        decreases n,
    {
        assert(all.take(n as int).last() == events@[n - 1]@);
        if events[n - 1].job_type.is_some() {
            return events[n - 1].job_type;
        }
        assert(all.take(n as int).drop_last() =~= all.take(n - 1));
        n = n - 1;
    }
    None
}

/// The status of the latest event that has one.
pub fn status_from_events(events: &[LifecycleEvent]) -> (r: Option<Status>)
    ensures
        status::opt_status(r) == latest_status(events::events_view(events@)),
{
    let ghost all = events::events_view(events@);
    let mut n: usize = events.len();
    assert(all.take(n as int) =~= all);
    while n > 0
        invariant
            n <= events@.len(),
            all == events::events_view(events@),
            latest_status(all) == latest_status(all.take(n as int)),
        decreases n,
    {
        assert(all.take(n as int).last() == events@[n - 1]@);
        if let Some(found) = status_from_event(&events[n - 1]) {
            return Some(found);
        }
        assert(all.take(n as int).drop_last() =~= all.take(n - 1));
        n = n - 1;
    }
    None
}

/// What a task detail says of the current task.
#[derive(Debug, PartialEq, Eq)]
pub struct TaskDetailProjection {
    pub job_type: Option<i32>,
    pub status: Option<Status>,
    pub provider_agent_id: Option<String>,
    pub token_amount: Option<String>,
    pub token_symbol: Option<String>,
}

/// The model of a task detail projection.
#[verifier::ext_equal]
pub struct ProjectionView {
    pub job_type: Option<i32>,
    pub status: Option<StatusView>,
    pub provider_agent_id: Option<Seq<char>>,
    pub token_amount: Option<Seq<char>>,
    pub token_symbol: Option<Seq<char>>,
}

impl View for TaskDetailProjection {
    type V = ProjectionView;

    open spec fn view(&self) -> ProjectionView {
        ProjectionView {
            job_type: self.job_type,
            status: status::opt_status(self.status),
            provider_agent_id: text::opt_view(self.provider_agent_id),
            token_amount: text::opt_view(self.token_amount),
            token_symbol: text::opt_view(self.token_symbol),
        }
    }
}

/// What a task detail says of the current task.
pub open spec fn projection(detail: JsonView) -> ProjectionView {
    ProjectionView {
        job_type: events::job_type_at(detail),
        status: match json::member(detail, "status"@) {
            Some(value) => match json::scalar_small_int(value) {
                Some(code) => Some(status::status_of_code(code)),
                None => None,
            },
            None => None,
        },
        provider_agent_id: json::first_text(detail, seq!["providerAgentId"@, "aspAgentId"@]),
        token_amount: json::first_text(
            detail,
            seq!["refundAmount"@, "paymentTokenAmount"@, "tokenAmount"@],
        ),
        token_symbol: json::first_text(
            detail,
            seq!["refundTokenSymbol"@, "paymentTokenSymbol"@, "tokenSymbol"@],
        ),
    }
}

/// Reads what a task detail says of the current task.
pub fn project_task_detail(detail: &Json) -> (r: TaskDetailProjection)
    ensures
        r@ == projection(detail@),
{
    let status = match detail.get("status") {
        Some(value) => match scalar_i32(value) {
            Some(code) => Some(Status::from_int(code)),
            None => None,
        },
        None => None,
    };
    TaskDetailProjection {
        job_type: job_type_field(detail),
        status,
        provider_agent_id: detail_string(detail, &["providerAgentId", "aspAgentId"]),
        token_amount: detail_string(detail, &["refundAmount", "paymentTokenAmount", "tokenAmount"]),
        token_symbol: detail_string(
            detail,
            &["refundTokenSymbol", "paymentTokenSymbol", "tokenSymbol"],
        ),
    }
}

/// The type and status of a task after its detail and its events are combined.
#[derive(Debug, PartialEq, Eq)]
pub struct ReconciledCurrent {
    pub job_type: Option<i32>,
    pub status: Option<Status>,
    pub status_from_local: bool,
}

/// The model of a combined type and status.
#[verifier::ext_equal]
pub struct ReconciledView {
    pub job_type: Option<i32>,
    pub status: Option<StatusView>,
    pub status_from_local: bool,
}

impl View for ReconciledCurrent {
    type V = ReconciledView;

    open spec fn view(&self) -> ReconciledView {
        ReconciledView {
            job_type: self.job_type,
            status: status::opt_status(self.status),
            status_from_local: self.status_from_local,
        }
    }
}

/// A detail's type and status, with gaps filled from the events.
pub open spec fn reconciled(projected: ProjectionView, events: Seq<EventView>) -> ReconciledView {
    ReconciledView {
        job_type: text::or_else_view(projected.job_type, latest_job_type(events)),
        status: text::or_else_view(projected.status, latest_status(events)),
        status_from_local: projected.status is None && latest_status(events) is Some,
    }
}

/// Fills the gaps in a detail's type and status from the events.
pub fn reconcile_current(projected: &TaskDetailProjection, events: &[LifecycleEvent]) -> (r:
    ReconciledCurrent)
    ensures
        r@ == reconciled(projected@, events::events_view(events@)),
{
    let job_type = match projected.job_type {
        Some(stated) => Some(stated),
        None => job_type_from_events(events),
    };
    match &projected.status {
        Some(stated) => ReconciledCurrent {
            job_type,
            status: Some(stated.clone()),
            status_from_local: false,
        },
        None => {
            let local = status_from_events(events);
            let status_from_local = local.is_some();
            ReconciledCurrent { job_type, status: local, status_from_local }
        },
    }
}

/// The end of a task that an event states.
pub open spec fn ending(event: EventView) -> Option<StatusView> {
    match event.kind {
        LifecycleEventKind::Completed => Some(StatusView::Completed),
        LifecycleEventKind::Closed => Some(StatusView::Close),
        LifecycleEventKind::Expired => Some(StatusView::Expired),
        LifecycleEventKind::Refunded => Some(StatusView::Failed),
        LifecycleEventKind::Failed => Some(StatusView::Failed),
        LifecycleEventKind::DisputeResolved => event_status(event),
        _ => None,
    }
}

/// The end of a task that the latest event with one states.
pub open spec fn latest_ending(events: Seq<EventView>) -> Option<StatusView>
    decreases events.len(),
{
    if events.len() == 0 {
        None
    } else {
        text::or_else_view(ending(events.last()), latest_ending(events.drop_last()))
    }
}

/// Whether the events end a task otherwise than its status says. A task that
/// the platform stopped may be closed.
pub open spec fn conflicts(current: StatusView, events: Seq<EventView>) -> bool {
    match latest_ending(events) {
        None => false,
        Some(local) => !status::status_is_terminal(current) || (local != current && !(current
            == StatusView::AdminStopped && local == StatusView::Close)),
    }
}

fn ending_from_event(event: &LifecycleEvent) -> (r: Option<Status>)
    ensures
        status::opt_status(r) == ending(event@),
{
    match event.kind {
        LifecycleEventKind::Completed => Some(Status::Completed),
        LifecycleEventKind::Closed => Some(Status::Close),
        LifecycleEventKind::Expired => Some(Status::Expired),
        LifecycleEventKind::Refunded => Some(Status::Failed),
        LifecycleEventKind::Failed => Some(Status::Failed),
        LifecycleEventKind::DisputeResolved => status_from_event(event),
        _ => None,
    }
}

/// Whether the events end a task otherwise than its status says.
pub fn events_conflict_with_status(current: &Status, events: &[LifecycleEvent]) -> (r: bool)
    ensures
        r == conflicts(current@, events::events_view(events@)),
{
    let ghost all = events::events_view(events@);
    let mut n: usize = events.len();
    assert(all.take(n as int) =~= all);
    while n > 0
        invariant
            n <= events@.len(),
            all == events::events_view(events@),
            latest_ending(all) == latest_ending(all.take(n as int)),
        decreases n,
    {
        assert(all.take(n as int).last() == events@[n - 1]@);
        if let Some(local) = ending_from_event(&events[n - 1]) {
            let stopped = current.same(&Status::AdminStopped) && local.same(&Status::Close);
            return !current.is_terminal() || (!local.same(current) && !stopped);
        }
        assert(all.take(n as int).drop_last() =~= all.take(n - 1));
        n = n - 1;
    }
    false
}

/// A detail that states a status or type is not overruled by events.
pub proof fn detail_wins_over_events(projected: ProjectionView, events: Seq<EventView>)
    ensures
        projected.status is Some ==> reconciled(projected, events).status == projected.status
            && !reconciled(projected, events).status_from_local,
        projected.job_type is Some ==> reconciled(projected, events).job_type
            == projected.job_type,
        reconciled(projected, events).status_from_local ==> projected.status is None,
{
}

/// Filling from a detail never changes a milestone that is known, and filling
/// twice is filling once.
pub proof fn merging_keeps_known_milestones(milestones: MilestonesView, detail: JsonView)
    ensures
        merged(merged(milestones, detail), detail) == merged(milestones, detail),
        milestones.created_at is Some ==> merged(milestones, detail).created_at
            == milestones.created_at,
        milestones.accepted_at is Some ==> merged(milestones, detail).accepted_at
            == milestones.accepted_at,
        milestones.submitted_at is Some ==> merged(milestones, detail).submitted_at
            == milestones.submitted_at,
        milestones.completed_at is Some ==> merged(milestones, detail).completed_at
            == milestones.completed_at,
        milestones.rejected_at is Some ==> merged(milestones, detail).rejected_at
            == milestones.rejected_at,
        milestones.disputed_at is Some ==> merged(milestones, detail).disputed_at
            == milestones.disputed_at,
        milestones.dispute_resolved_at is Some ==> merged(milestones, detail).dispute_resolved_at
            == milestones.dispute_resolved_at,
        milestones.closed_at is Some ==> merged(milestones, detail).closed_at
            == milestones.closed_at,
        milestones.expired_at is Some ==> merged(milestones, detail).expired_at
            == milestones.expired_at,
        milestones.refunded_at is Some ==> merged(milestones, detail).refunded_at
            == milestones.refunded_at,
        milestones.failed_at is Some ==> merged(milestones, detail).failed_at
            == milestones.failed_at,
        merged(milestones, detail).dispute_requested_at == milestones.dispute_requested_at,
        merged(milestones, detail).review_expired_at == milestones.review_expired_at,
        merged(milestones, detail).reject_expired_at == milestones.reject_expired_at,
{
}

/// A review deadline that the detail states wins over the events and the
/// milestones, and one that the submission states wins over the review window.
pub proof fn stated_deadlines_win(
    detail: JsonView,
    events: Seq<EventView>,
    milestones: MilestonesView,
    other_events: Seq<EventView>,
    other_milestones: MilestonesView,
)
    ensures
        deadline::timestamp_at(detail, "reviewDeadlineAt"@) is Some
            || deadline::timestamp_at(detail, "reviewWindowEndsAt"@) is Some
            || deadline::timestamp_at(detail, "expireTime"@) is Some ==> review_deadline_of(
            detail,
            events,
            milestones,
        ) == review_deadline_of(detail, other_events, other_milestones),
        submission_deadline(events) is Some ==> review_deadline_of(detail, events, milestones)
            == review_deadline_of(detail, events, other_milestones),
{
}

/// Without a stated deadline and a submission there is no review deadline.
pub proof fn no_submission_no_deadline(
    detail: JsonView,
    events: Seq<EventView>,
    milestones: MilestonesView,
)
    requires
        deadline::timestamp_at(detail, "reviewDeadlineAt"@) is None,
        deadline::timestamp_at(detail, "reviewWindowEndsAt"@) is None,
        deadline::timestamp_at(detail, "expireTime"@) is None,
        last_of_kind(events, LifecycleEventKind::Submitted) is None,
        milestones.submitted_at is None,
    ensures
        review_deadline_of(detail, events, milestones) is None,
{
}

/// An event without a time, or of another kind, does not move a milestone, and
/// a first known time is not moved by what follows.
pub proof fn first_time_is_kept(
    earlier: Seq<EventView>,
    later: Seq<EventView>,
    kind: LifecycleEventKind,
)
    ensures
        first_time(earlier + later, kind) == text::or_else_view(
            first_time(earlier, kind),
            first_time(later, kind),
        ),
    decreases earlier.len(),
{
    if earlier.len() == 0 {
        assert(earlier + later =~= later);
    } else {
        assert((earlier + later).skip(1) =~= earlier.skip(1) + later);
        first_time_is_kept(earlier.skip(1), later, kind);
    }
}

} // verus!
