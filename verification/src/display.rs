//! The five-stage timeline of a one-time task.

use vstd::prelude::*;
use vstd::string::StringExecFns;

use crate::deadline;
use crate::deadline::format_timestamp;
use crate::events;
use crate::events::{EventView, LifecycleEvent, LifecycleEventKind};
use crate::milestones;
use crate::milestones::{Milestones, MilestonesView};
use crate::phase::LifecyclePhase;
use crate::text;
use crate::text::{as_deref, text_eq};

verus! {

/// A stage of a displayed timeline.
#[derive(Debug, PartialEq, Eq)]
pub struct LifecycleDisplayNode {
    pub marker: String,
    pub key: String,
    pub title: String,
    pub detail: Option<String>,
}

/// The model of a displayed stage.
#[verifier::ext_equal]
pub struct NodeView {
    pub marker: Seq<char>,
    pub key: Seq<char>,
    pub title: Seq<char>,
    pub detail: Option<Seq<char>>,
}

impl View for LifecycleDisplayNode {
    type V = NodeView;

    open spec fn view(&self) -> NodeView {
        NodeView {
            marker: self.marker@,
            key: self.key@,
            title: self.title@,
            detail: text::opt_view(self.detail),
        }
    }
}

/// The models of a list of stages.
pub open spec fn nodes_view(nodes: Seq<LifecycleDisplayNode>) -> Seq<NodeView> {
    Seq::new(nodes.len(), |i: int| nodes[i]@)
}

/// What is displayed of a task or subscription.
#[derive(Debug, PartialEq, Eq)]
pub struct LifecycleDisplay {
    pub template_id: Option<String>,
    pub progress_step: u8,
    pub progress_total: u8,
    pub deliverable_available: bool,
    pub review_ready: bool,
    pub timeline: Vec<LifecycleDisplayNode>,
    pub follow_up: Vec<LifecycleDisplayNode>,
    pub choices: Vec<String>,
    pub current_summary: String,
    pub handled_by: String,
    pub next: String,
    pub notice: Option<String>,
}

/// The model of a display.
#[verifier::ext_equal]
pub struct DisplayView {
    pub template_id: Option<Seq<char>>,
    pub progress_step: u8,
    pub progress_total: u8,
    pub deliverable_available: bool,
    pub review_ready: bool,
    pub timeline: Seq<NodeView>,
    pub follow_up: Seq<NodeView>,
    pub choices: Seq<Seq<char>>,
    pub current_summary: Seq<char>,
    pub handled_by: Seq<char>,
    pub next: Seq<char>,
    pub notice: Option<Seq<char>>,
}

impl View for LifecycleDisplay {
    type V = DisplayView;

    open spec fn view(&self) -> DisplayView {
        DisplayView {
            template_id: text::opt_view(self.template_id),
            progress_step: self.progress_step,
            progress_total: self.progress_total,
            deliverable_available: self.deliverable_available,
            review_ready: self.review_ready,
            timeline: nodes_view(self.timeline@),
            follow_up: nodes_view(self.follow_up@),
            choices: events::texts_view(self.choices@),
            current_summary: self.current_summary@,
            handled_by: self.handled_by@,
            next: self.next@,
            notice: text::opt_view(self.notice),
        }
    }
}

/// The local times of milestones and of a review deadline, as far as they have
/// one.
#[derive(Debug, PartialEq, Eq)]
pub struct LocalTimes {
    pub milestones: Milestones,
    pub review_deadline: Option<String>,
}

/// The model of local times.
#[verifier::ext_equal]
pub struct LocalTimesView {
    pub milestones: MilestonesView,
    pub review_deadline: Option<Seq<char>>,
}

impl View for LocalTimes {
    type V = LocalTimesView;

    open spec fn view(&self) -> LocalTimesView {
        LocalTimesView {
            milestones: self.milestones@,
            review_deadline: text::opt_view(self.review_deadline),
        }
    }
}

/// Whether local times are those of milestones and a review deadline, as any
/// time zone may write them.
pub open spec fn are_times_of(
    times: LocalTimesView,
    milestones: MilestonesView,
    review_deadline: Option<Seq<char>>,
) -> bool {
    let local = times.milestones;
    &&& deadline::is_time_of(local.created_at, milestones.created_at)
    &&& deadline::is_time_of(local.accepted_at, milestones.accepted_at)
    &&& deadline::is_time_of(local.submitted_at, milestones.submitted_at)
    &&& deadline::is_time_of(local.completed_at, milestones.completed_at)
    &&& deadline::is_time_of(local.rejected_at, milestones.rejected_at)
    &&& deadline::is_time_of(local.dispute_requested_at, milestones.dispute_requested_at)
    &&& deadline::is_time_of(local.disputed_at, milestones.disputed_at)
    &&& deadline::is_time_of(local.dispute_resolved_at, milestones.dispute_resolved_at)
    &&& deadline::is_time_of(local.review_expired_at, milestones.review_expired_at)
    &&& deadline::is_time_of(local.reject_expired_at, milestones.reject_expired_at)
    &&& deadline::is_time_of(local.closed_at, milestones.closed_at)
    &&& deadline::is_time_of(local.expired_at, milestones.expired_at)
    &&& deadline::is_time_of(local.refunded_at, milestones.refunded_at)
    &&& deadline::is_time_of(local.failed_at, milestones.failed_at)
    &&& deadline::is_time_of(times.review_deadline, review_deadline)
}

fn local_time(value: &Option<String>) -> (r: Option<String>)
    ensures
        deadline::is_time_of(text::opt_view(r), text::opt_view(*value)),
{
    format_timestamp(as_deref(value))
}

/// The local times of milestones and a review deadline.
pub fn local_times(milestones: &Milestones, review_deadline_at: Option<&str>) -> (r: LocalTimes)
    ensures
        are_times_of(r@, milestones@, text::opt_str_view(review_deadline_at)),
{
    LocalTimes {
        milestones: Milestones {
            created_at: local_time(&milestones.created_at),
            accepted_at: local_time(&milestones.accepted_at),
            submitted_at: local_time(&milestones.submitted_at),
            completed_at: local_time(&milestones.completed_at),
            rejected_at: local_time(&milestones.rejected_at),
            dispute_requested_at: local_time(&milestones.dispute_requested_at),
            disputed_at: local_time(&milestones.disputed_at),
            dispute_resolved_at: local_time(&milestones.dispute_resolved_at),
            review_expired_at: local_time(&milestones.review_expired_at),
            reject_expired_at: local_time(&milestones.reject_expired_at),
            closed_at: local_time(&milestones.closed_at),
            expired_at: local_time(&milestones.expired_at),
            refunded_at: local_time(&milestones.refunded_at),
            failed_at: local_time(&milestones.failed_at),
        },
        review_deadline: format_timestamp(review_deadline_at),
    }
}

/// A local time, or the word that there is none.
pub open spec fn time_or_none(time: Option<Seq<char>>) -> Seq<char> {
    match time {
        Some(t) => t,
        None => "Time unavailable"@,
    }
}

/// A local time, or the word that there is none.
pub fn time_or_unavailable(time: Option<&str>) -> (r: String)
    ensures
        r@ == time_or_none(text::opt_str_view(time)),
{
    match time {
        Some(t) => t.to_string(),
        None => "Time unavailable".to_string(),
    }
}

/// A span of local times, as far as its ends are known.
pub open spec fn span(start: Option<Seq<char>>, end: Option<Seq<char>>) -> Seq<char> {
    match (start, end) {
        (Some(s), Some(e)) => s + " - "@ + e,
        (Some(s), None) => s + " started; end time unavailable"@,
        (None, Some(e)) => "Completed at "@ + e + "; start time unavailable"@,
        (None, None) => "Time unavailable"@,
    }
}

/// A span of local times, as far as its ends are known.
pub fn time_range(start: Option<&str>, end: Option<&str>) -> (r: String)
    ensures
        r@ == span(text::opt_str_view(start), text::opt_str_view(end)),
{
    match (start, end) {
        (Some(s), Some(e)) => s.to_string().concat(" - ").concat(e),
        (Some(s), None) => s.to_string().concat(" started; end time unavailable"),
        (None, Some(e)) => "Completed at ".to_string().concat(e).concat("; start time unavailable"),
        (None, None) => "Time unavailable".to_string(),
    }
}

/// A local time with a word on what happened then, or another text without it.
pub open spec fn since(time: Option<Seq<char>>, word: Seq<char>, without: Seq<char>) -> Seq<char> {
    match time {
        Some(t) => t + word,
        None => without,
    }
}

fn time_with_word(time: Option<&str>, word: &str, without: &str) -> (r: String)
    ensures
        r@ == since(text::opt_str_view(time), word@, without@),
{
    match time {
        Some(t) => t.to_string().concat(word),
        None => without.to_string(),
    }
}

/// When a stage began, as far as known.
pub open spec fn begun(time: Option<Seq<char>>) -> Seq<char> {
    since(time, " started"@, "Start time unavailable"@)
}

fn begun_text(time: Option<&str>) -> (r: String)
    ensures
        r@ == begun(text::opt_str_view(time)),
{
    time_with_word(time, " started", "Start time unavailable")
}

/// A stage with a text.
pub open spec fn stage(
    marker: Seq<char>,
    key: Seq<char>,
    title: Seq<char>,
    detail: Seq<char>,
) -> NodeView {
    NodeView { marker, key, title, detail: Some(detail) }
}

/// A stage of a displayed timeline.
pub fn node(marker: &str, key: &str, title: &str, detail: Option<String>) -> (r:
    LifecycleDisplayNode)
    ensures
        r@ == (NodeView {
            marker: marker@,
            key: key@,
            title: title@,
            detail: text::opt_view(detail),
        }),
{
    LifecycleDisplayNode {
        marker: marker.to_string(),
        key: key.to_string(),
        title: title.to_string(),
        detail,
    }
}

/// A stage that has not been reached.
pub open spec fn pending(key: Seq<char>, title: Seq<char>) -> NodeView {
    stage(
        "○"@,
        key,
        title,
        if key == "completed"@ {
            "Not completed"@
        } else {
            "Not started"@
        },
    )
}

/// A stage that has not been reached.
pub fn pending_node(key: &str, title: &str) -> (r: LifecycleDisplayNode)
    ensures
        r@ == pending(key@, title@),
{
    let detail = if text_eq(key, "completed") {
        "Not completed"
    } else {
        "Not started"
    };
    node("○", key, title, Some(detail.to_string()))
}

/// The review stage before the task status has reached it.
pub open spec fn pending_review(deliverable_available: bool) -> NodeView {
    if deliverable_available {
        stage(
            "○"@,
            "user_review"@,
            "Deliverable review"@,
            "Deliverable received; waiting for the task status update"@,
        )
    } else {
        pending("user_review"@, "Deliverable review"@)
    }
}

/// The review stage before the task status has reached it.
pub fn pending_review_node(deliverable_available: bool) -> (r: LifecycleDisplayNode)
    ensures
        r@ == pending_review(deliverable_available),
{
    if deliverable_available {
        node(
            "○",
            "user_review",
            "Deliverable review",
            Some("Deliverable received; waiting for the task status update".to_string()),
        )
    } else {
        pending_node("user_review", "Deliverable review")
    }
}

/// What a display is drawn from.
pub struct Scene<'a> {
    pub phase: LifecyclePhase,
    pub milestones: &'a Milestones,
    pub times: &'a LocalTimes,
    pub token_amount: Option<&'a str>,
    pub token_symbol: Option<&'a str>,
    pub events: &'a [LifecycleEvent],
    pub deliverable_available: bool,
}

/// The model of what a display is drawn from.
#[verifier::ext_equal]
pub struct SceneView {
    pub phase: LifecyclePhase,
    pub milestones: MilestonesView,
    pub times: LocalTimesView,
    pub token_amount: Option<Seq<char>>,
    pub token_symbol: Option<Seq<char>>,
    pub events: Seq<EventView>,
    pub deliverable_available: bool,
}

impl<'a> View for Scene<'a> {
    type V = SceneView;

    open spec fn view(&self) -> SceneView {
        SceneView {
            phase: self.phase,
            milestones: self.milestones@,
            times: self.times@,
            token_amount: text::opt_str_view(self.token_amount),
            token_symbol: text::opt_str_view(self.token_symbol),
            events: events::events_view(self.events@),
            deliverable_available: self.deliverable_available,
        }
    }
}

/// Whether a list of events has one of a kind.
pub open spec fn has_kind(events: Seq<EventView>, kind: LifecycleEventKind) -> bool {
    exists|i: int| 0 <= i < events.len() && (#[trigger] events[i]).kind == kind
}

/// Whether a list of events has one of a kind.
pub fn any_of_kind(events: &[LifecycleEvent], kind: LifecycleEventKind) -> (r: bool)
    ensures
        r == has_kind(events::events_view(events@), kind),
{
    let ghost all = events::events_view(events@);
    let mut i: usize = 0;
    while i < events.len()
        invariant
            i <= events@.len(),
            all == events::events_view(events@),
            forall|k: int| 0 <= k < i ==> (#[trigger] all[k]).kind != kind,
        decreases events@.len() - i,
    {
        if events[i].kind == kind {
            assert(all[i as int].kind == kind);
            return true;
        }
        i = i + 1;
    }
    false
}

/// Whether the deliverable was rejected, by its milestone or by an event.
pub open spec fn was_rejected(s: SceneView) -> bool {
    s.milestones.rejected_at is Some || has_kind(s.events, LifecycleEventKind::Rejected)
}

/// Whether the last event is the end of the time for a submission.
pub open spec fn ends_without_submission(events: Seq<EventView>) -> bool {
    events.len() > 0 && events.last().name == "submit_expired"@
}

/// Whether the ASP had begun a task that closed or expired.
pub open spec fn had_begun(s: SceneView) -> bool {
    ends_without_submission(s.events) || s.milestones.accepted_at is Some
}

/// The first of two local times whose milestone is known.
pub open spec fn first_known(
    milestone: Option<Seq<char>>,
    time: Option<Seq<char>>,
    other: Option<Seq<char>>,
) -> Option<Seq<char>> {
    if milestone is Some {
        time
    } else {
        other
    }
}

/// When the platform review began: with the dispute, else with its request.
pub open spec fn dispute_began(s: SceneView) -> Option<Seq<char>> {
    first_known(
        s.milestones.disputed_at,
        s.times.milestones.disputed_at,
        s.times.milestones.dispute_requested_at,
    )
}

/// When the refund came: by its own milestone, else by that of the failure.
pub open spec fn refund_time(s: SceneView) -> Option<Seq<char>> {
    first_known(
        s.milestones.refunded_at,
        s.times.milestones.refunded_at,
        s.times.milestones.failed_at,
    )
}

/// When a task expired or closed.
pub open spec fn end_time(s: SceneView) -> Option<Seq<char>> {
    if s.phase == LifecyclePhase::Expired {
        s.times.milestones.expired_at
    } else {
        s.times.milestones.closed_at
    }
}

/// Whether the review has begun and its time has not run out.
pub open spec fn is_under_review(s: SceneView) -> bool {
    s.phase == LifecyclePhase::WaitingForUserReview && s.milestones.review_expired_at is None
}

/// Whether the user can review now.
pub open spec fn is_review_ready(s: SceneView) -> bool {
    is_under_review(s) && s.deliverable_available
}

/// A phase that a one-time task does not have, or that is not known.
pub open spec fn is_undrawn(phase: LifecyclePhase) -> bool {
    match phase {
        LifecyclePhase::FreeTrial => true,
        LifecyclePhase::ActiveSubscription => true,
        LifecyclePhase::RenewalGracePeriod => true,
        LifecyclePhase::AwaitingAspDecision => true,
        LifecyclePhase::Unknown => true,
        _ => false,
    }
}

/// The stage of the creation.
pub open spec fn creation_stage(s: SceneView) -> NodeView {
    if s.phase == LifecyclePhase::Initializing {
        stage("▶"@, "created"@, "Creating task"@, "Start time unavailable"@)
    } else if is_undrawn(s.phase) {
        pending("created"@, "Task creation"@)
    } else {
        stage("✓"@, "created"@, "Task created"@, time_or_none(s.times.milestones.created_at))
    }
}

/// The stage of an acceptance that is done.
pub open spec fn accepted_stage(s: SceneView) -> NodeView {
    stage("✓"@, "accepted"@, "ASP accepted"@, time_or_none(s.times.milestones.accepted_at))
}

/// The stage of the acceptance.
pub open spec fn acceptance_stage(s: SceneView) -> NodeView {
    match s.phase {
        LifecyclePhase::WaitingForAsp => stage(
            "▶"@,
            "accepted"@,
            "Waiting for ASP acceptance"@,
            begun(s.times.milestones.created_at),
        ),
        LifecyclePhase::AspExecuting => accepted_stage(s),
        LifecyclePhase::WaitingForUserReview => accepted_stage(s),
        LifecyclePhase::Rejected => accepted_stage(s),
        LifecyclePhase::Disputed => accepted_stage(s),
        LifecyclePhase::Completed => accepted_stage(s),
        LifecyclePhase::Refunded | LifecyclePhase::Failed => if s.milestones.accepted_at is Some {
            accepted_stage(s)
        } else {
            pending("accepted"@, "ASP acceptance"@)
        },
        LifecyclePhase::Expired => if had_begun(s) {
            accepted_stage(s)
        } else {
            stage(
                "—"@,
                "accepted"@,
                "ASP acceptance timed out"@,
                time_or_none(s.times.milestones.expired_at),
            )
        },
        LifecyclePhase::Closed => if had_begun(s) {
            accepted_stage(s)
        } else {
            pending("accepted"@, "ASP acceptance"@)
        },
        _ => pending("accepted"@, "ASP acceptance"@),
    }
}

/// The stage of an execution that is done.
pub open spec fn executed_stage(s: SceneView) -> NodeView {
    stage(
        "✓"@,
        "asp_execution"@,
        "ASP executed"@,
        span(s.times.milestones.accepted_at, s.times.milestones.submitted_at),
    )
}

/// The stage of the execution.
pub open spec fn execution_stage(s: SceneView) -> NodeView {
    match s.phase {
        LifecyclePhase::AspExecuting => stage(
            "▶"@,
            "asp_execution"@,
            "ASP executing"@,
            begun(s.times.milestones.accepted_at),
        ),
        LifecyclePhase::WaitingForUserReview => executed_stage(s),
        LifecyclePhase::Rejected => executed_stage(s),
        LifecyclePhase::Disputed => executed_stage(s),
        LifecyclePhase::Completed => executed_stage(s),
        LifecyclePhase::Refunded | LifecyclePhase::Failed => if s.milestones.submitted_at is Some {
            executed_stage(s)
        } else if s.milestones.accepted_at is Some {
            stage(
                "—"@,
                "asp_execution"@,
                "ASP execution ended"@,
                span(s.times.milestones.accepted_at, refund_time(s)),
            )
        } else {
            pending("asp_execution"@, "ASP execution"@)
        },
        LifecyclePhase::Expired | LifecyclePhase::Closed => if s.milestones.submitted_at is Some {
            executed_stage(s)
        } else if had_begun(s) {
            stage(
                "—"@,
                "asp_execution"@,
                if s.phase == LifecyclePhase::Expired {
                    "ASP submission timed out"@
                } else {
                    "ASP execution ended"@
                },
                time_or_none(
                    first_known(
                        s.milestones.expired_at,
                        s.times.milestones.expired_at,
                        s.times.milestones.closed_at,
                    ),
                ),
            )
        } else {
            pending("asp_execution"@, "ASP execution"@)
        },
        _ => pending("asp_execution"@, "ASP execution"@),
    }
}

/// The stage of a review that ended in a rejection.
pub open spec fn rejected_stage(s: SceneView) -> NodeView {
    stage(
        "✓"@,
        "user_review"@,
        "Deliverable rejected"@,
        time_or_none(s.times.milestones.rejected_at),
    )
}

/// What is said of a review that is due.
pub open spec fn review_detail(s: SceneView) -> Seq<char> {
    let start = s.times.milestones.submitted_at;
    if s.milestones.review_expired_at is Some {
        time_or_none(s.times.milestones.review_expired_at)
    } else if !s.deliverable_available {
        since(start, " started; waiting for the deliverable"@, "Waiting for the deliverable"@)
    } else {
        match (start, s.times.review_deadline) {
            (Some(t), Some(end)) => t + " started; accept or reject by "@ + end,
            (Some(t), None) => t + " started; accept or reject; deadline unavailable"@,
            (None, Some(end)) => "Accept or reject by "@ + end,
            (None, None) => "Accept or reject the deliverable; timing unavailable"@,
        }
    }
}

/// The stage of the review.
pub open spec fn review_stage(s: SceneView) -> NodeView {
    match s.phase {
        LifecyclePhase::Initializing => pending_review(s.deliverable_available),
        LifecyclePhase::WaitingForAsp => pending_review(s.deliverable_available),
        LifecyclePhase::AspExecuting => pending_review(s.deliverable_available),
        LifecyclePhase::WaitingForUserReview => if s.milestones.review_expired_at is Some {
            stage("—"@, "user_review"@, "Deliverable review period ended"@, review_detail(s))
        } else {
            stage(
                "▶"@,
                "user_review"@,
                "Waiting for you to review the deliverable"@,
                review_detail(s),
            )
        },
        LifecyclePhase::Rejected => rejected_stage(s),
        LifecyclePhase::Disputed => rejected_stage(s),
        LifecyclePhase::Completed => if was_rejected(s) {
            rejected_stage(s)
        } else {
            stage(
                "✓"@,
                "user_review"@,
                "Deliverable confirmed"@,
                span(s.times.milestones.submitted_at, s.times.milestones.completed_at),
            )
        },
        LifecyclePhase::Refunded | LifecyclePhase::Failed => if was_rejected(s) {
            rejected_stage(s)
        } else if s.milestones.submitted_at is Some {
            stage(
                "—"@,
                "user_review"@,
                "Deliverable review ended"@,
                "The task ended before deliverable review"@,
            )
        } else {
            pending("user_review"@, "Deliverable review"@)
        },
        LifecyclePhase::Expired | LifecyclePhase::Closed => if s.milestones.submitted_at is Some {
            stage(
                "—"@,
                "user_review"@,
                "Deliverable review period ended"@,
                time_or_none(end_time(s)),
            )
        } else {
            pending("user_review"@, "Deliverable review"@)
        },
        _ => pending("user_review"@, "Deliverable review"@),
    }
}

/// The stage of the completion.
pub open spec fn completion_stage(s: SceneView) -> NodeView {
    match s.phase {
        LifecyclePhase::Completed => stage(
            "✓"@,
            "completed"@,
            "Task completed"@,
            time_or_none(s.times.milestones.completed_at),
        ),
        LifecyclePhase::Refunded | LifecyclePhase::Failed => stage(
            "—"@,
            "completed"@,
            "Task not completed"@,
            "Ended before normal completion"@,
        ),
        _ => pending("completed"@, "Task completion"@),
    }
}

/// The five stages.
pub open spec fn timeline_of(s: SceneView) -> Seq<NodeView> {
    seq![
        creation_stage(s),
        acceptance_stage(s),
        execution_stage(s),
        review_stage(s),
        completion_stage(s),
    ]
}

/// The platform review that is done, with a word on its result.
pub open spec fn resolved_stage(s: SceneView, result: Seq<char>) -> NodeView {
    stage(
        "✓"@,
        "platform_review"@,
        "Platform review completed"@,
        span(dispute_began(s), s.times.milestones.dispute_resolved_at) + result,
    )
}

/// What follows a rejection.
pub open spec fn dispute_stage(s: SceneView) -> NodeView {
    if s.milestones.dispute_resolved_at is Some {
        stage(
            "✓"@,
            "platform_review"@,
            "Platform review completed"@,
            span(dispute_began(s), s.times.milestones.dispute_resolved_at),
        )
    } else if s.phase == LifecyclePhase::Disputed {
        stage(
            "▶"@,
            "platform_review"@,
            "Platform review in progress"@,
            begun(s.times.milestones.disputed_at),
        )
    } else if s.milestones.dispute_requested_at is Some {
        stage(
            "▶"@,
            "platform_review"@,
            "Waiting for platform review"@,
            since(
                s.times.milestones.dispute_requested_at,
                " requested"@,
                "Request time unavailable"@,
            ),
        )
    } else if s.milestones.reject_expired_at is Some {
        stage(
            "▶"@,
            "refund_pending"@,
            "Waiting for refund"@,
            time_or_none(s.times.milestones.reject_expired_at),
        )
    } else {
        stage(
            "▶"@,
            "asp_response"@,
            "Waiting for ASP response"@,
            begun(s.times.milestones.rejected_at),
        )
    }
}

/// The amount that was returned, as far as it is stated.
pub open spec fn returned_amount(s: SceneView) -> Option<Seq<char>> {
    match s.token_amount {
        Some(amount) => if amount.len() == 0 {
            None
        } else {
            match s.token_symbol {
                Some(symbol) => if symbol.len() > 0 {
                    Some(amount + " "@ + symbol + " returned"@)
                } else {
                    Some(amount + " returned"@)
                },
                None => Some(amount + " returned"@),
            }
        },
        None => None,
    }
}

/// The refund that is done, with its time and amount as far as known.
pub open spec fn refund_stage(s: SceneView) -> NodeView {
    NodeView {
        marker: "✓"@,
        key: "refund"@,
        title: "Refund completed"@,
        detail: match (refund_time(s), returned_amount(s)) {
            (Some(time), Some(amount)) => Some(time + "; "@ + amount),
            (Some(time), None) => Some(time),
            (None, amount) => amount,
        },
    }
}

/// What happened beside the five stages.
pub open spec fn follow_up_of(s: SceneView) -> Seq<NodeView> {
    match s.phase {
        LifecyclePhase::Rejected | LifecyclePhase::Disputed => seq![dispute_stage(s)],
        LifecyclePhase::Completed => if s.milestones.dispute_resolved_at is Some {
            seq![resolved_stage(s, "; result supports the ASP"@)]
        } else {
            Seq::empty()
        },
        LifecyclePhase::Refunded | LifecyclePhase::Failed => if s.milestones.dispute_resolved_at
            is Some {
            seq![resolved_stage(s, "; result supports you"@), refund_stage(s)]
        } else {
            seq![refund_stage(s)]
        },
        LifecyclePhase::Expired => seq![
            NodeView {
                marker: "✓"@,
                key: "expired"@,
                title: "Task expired"@,
                detail: end_time(s),
            },
        ],
        LifecyclePhase::Closed => seq![
            NodeView {
                marker: "✓"@,
                key: "closed"@,
                title: "Task closed"@,
                detail: end_time(s),
            },
        ],
        _ => Seq::empty(),
    }
}

/// How many of the five stages are reached.
pub open spec fn step_of(s: SceneView) -> u8 {
    match s.phase {
        LifecyclePhase::WaitingForAsp => 2,
        LifecyclePhase::AspExecuting => 3,
        LifecyclePhase::WaitingForUserReview => 4,
        LifecyclePhase::Rejected => 4,
        LifecyclePhase::Disputed => 4,
        LifecyclePhase::Completed => 5,
        LifecyclePhase::Refunded | LifecyclePhase::Failed => if was_rejected(s)
            || s.milestones.submitted_at is Some {
            4
        } else if s.milestones.accepted_at is Some {
            3
        } else {
            2
        },
        LifecyclePhase::Expired | LifecyclePhase::Closed => if s.milestones.submitted_at is Some {
            4
        } else if had_begun(s) {
            3
        } else {
            2
        },
        _ => 1,
    }
}

/// The words of a display: a summary, who handles the task, and what is next.
#[verifier::ext_equal]
pub struct WordsView {
    pub summary: Seq<char>,
    pub handled_by: Seq<char>,
    pub next: Seq<char>,
}

/// The words of a display.
pub open spec fn words_of(s: SceneView) -> WordsView {
    let finished = WordsView {
        summary: "Task completed"@,
        handled_by: "No action needed"@,
        next: "No further action"@,
    };
    match s.phase {
        LifecyclePhase::Initializing => WordsView {
            summary: "Creating task"@,
            handled_by: "Platform"@,
            next: "Wait for task creation"@,
        },
        LifecyclePhase::WaitingForAsp => WordsView {
            summary: "Waiting for ASP acceptance"@,
            handled_by: "ASP"@,
            next: "Wait for the ASP to accept"@,
        },
        LifecyclePhase::AspExecuting => WordsView {
            summary: "ASP executing"@,
            handled_by: "ASP"@,
            next: "Wait for the ASP to submit"@,
        },
        LifecyclePhase::WaitingForUserReview => if s.milestones.review_expired_at is Some {
            WordsView {
                summary: "Waiting for task completion"@,
                handled_by: "ASP"@,
                next: "Wait for the final result"@,
            }
        } else if s.deliverable_available {
            WordsView {
                summary: "Waiting for you to review the deliverable"@,
                handled_by: "You"@,
                next: "Accept or reject the deliverable"@,
            }
        } else {
            WordsView {
                summary: "Waiting for the deliverable"@,
                handled_by: "ASP"@,
                next: "Wait for the deliverable to arrive"@,
            }
        },
        LifecyclePhase::Rejected | LifecyclePhase::Disputed => if s.milestones.dispute_resolved_at
            is Some {
            WordsView {
                summary: "Platform review completed"@,
                handled_by: "Platform"@,
                next: "Wait for the final task result"@,
            }
        } else if s.phase == LifecyclePhase::Disputed {
            WordsView {
                summary: "Platform review in progress"@,
                handled_by: "Platform"@,
                next: "Wait for the result"@,
            }
        } else {
            WordsView {
                summary: "Waiting for the next response"@,
                handled_by: "ASP"@,
                next: "Wait for the result"@,
            }
        },
        LifecyclePhase::Completed => finished,
        LifecyclePhase::Refunded | LifecyclePhase::Failed => WordsView {
            summary: "Refund completed"@,
            ..finished
        },
        LifecyclePhase::Expired => WordsView { summary: "Task expired"@, ..finished },
        LifecyclePhase::Closed => WordsView { summary: "Task closed"@, ..finished },
        _ => WordsView {
            summary: "Task status unavailable"@,
            handled_by: "Unknown"@,
            next: "Try again later"@,
        },
    }
}

/// The display of a one-time task.
pub open spec fn display_of(s: SceneView, notice: Option<Seq<char>>) -> DisplayView {
    DisplayView {
        template_id: None,
        progress_step: step_of(s),
        progress_total: 5,
        deliverable_available: s.deliverable_available,
        review_ready: is_review_ready(s),
        timeline: timeline_of(s),
        follow_up: follow_up_of(s),
        choices: Seq::empty(),
        current_summary: words_of(s).summary,
        handled_by: words_of(s).handled_by,
        next: words_of(s).next,
        notice,
    }
}

fn timed_node(marker: &str, key: &str, title: &str, detail: String) -> (r: LifecycleDisplayNode)
    ensures
        r@ == stage(marker@, key@, title@, detail@),
{
    node(marker, key, title, Some(detail))
}

fn node_at(marker: &str, key: &str, title: &str, time: &Option<String>) -> (r:
    LifecycleDisplayNode)
    ensures
        r@ == stage(marker@, key@, title@, time_or_none(text::opt_view(*time))),
{
    timed_node(marker, key, title, time_or_unavailable(as_deref(time)))
}

impl<'a> Scene<'a> {
    fn was_rejected(&self) -> (r: bool)
        ensures
            r == was_rejected(self@),
    {
        self.milestones.rejected_at.is_some() || any_of_kind(
            self.events,
            LifecycleEventKind::Rejected,
        )
    }

    fn had_begun(&self) -> (r: bool)
        ensures
            r == had_begun(self@),
    {
        let n: usize = self.events.len();
        if n > 0 {
            assert(self@.events.last() == self.events@[n - 1]@);
            if text_eq(self.events[n - 1].name.as_str(), "submit_expired") {
                return true;
            }
        }
        self.milestones.accepted_at.is_some()
    }

    fn dispute_began(&self) -> (r: Option<&str>)
        ensures
            text::opt_str_view(r) == dispute_began(self@),
    {
        if self.milestones.disputed_at.is_some() {
            as_deref(&self.times.milestones.disputed_at)
        } else {
            as_deref(&self.times.milestones.dispute_requested_at)
        }
    }

    fn refund_time(&self) -> (r: Option<&str>)
        ensures
            text::opt_str_view(r) == refund_time(self@),
    {
        if self.milestones.refunded_at.is_some() {
            as_deref(&self.times.milestones.refunded_at)
        } else {
            as_deref(&self.times.milestones.failed_at)
        }
    }

    fn end_time(&self) -> (r: &Option<String>)
        ensures
            text::opt_view(*r) == end_time(self@),
    {
        if self.phase == LifecyclePhase::Expired {
            &self.times.milestones.expired_at
        } else {
            &self.times.milestones.closed_at
        }
    }

    fn is_undrawn(&self) -> (r: bool)
        ensures
            r == is_undrawn(self@.phase),
    {
        match self.phase {
            LifecyclePhase::FreeTrial => true,
            LifecyclePhase::ActiveSubscription => true,
            LifecyclePhase::RenewalGracePeriod => true,
            LifecyclePhase::AwaitingAspDecision => true,
            LifecyclePhase::Unknown => true,
            _ => false,
        }
    }

    fn creation_stage(&self) -> (r: LifecycleDisplayNode)
        ensures
            r@ == creation_stage(self@),
    {
        if self.phase == LifecyclePhase::Initializing {
            timed_node("▶", "created", "Creating task", "Start time unavailable".to_string())
        } else if self.is_undrawn() {
            pending_node("created", "Task creation")
        } else {
            node_at("✓", "created", "Task created", &self.times.milestones.created_at)
        }
    }

    fn accepted_stage(&self) -> (r: LifecycleDisplayNode)
        ensures
            r@ == accepted_stage(self@),
    {
        node_at("✓", "accepted", "ASP accepted", &self.times.milestones.accepted_at)
    }

    fn acceptance_stage(&self) -> (r: LifecycleDisplayNode)
        ensures
            r@ == acceptance_stage(self@),
    {
        match self.phase {
            LifecyclePhase::WaitingForAsp => timed_node(
                "▶",
                "accepted",
                "Waiting for ASP acceptance",
                begun_text(as_deref(&self.times.milestones.created_at)),
            ),
            LifecyclePhase::AspExecuting => self.accepted_stage(),
            LifecyclePhase::WaitingForUserReview => self.accepted_stage(),
            LifecyclePhase::Rejected => self.accepted_stage(),
            LifecyclePhase::Disputed => self.accepted_stage(),
            LifecyclePhase::Completed => self.accepted_stage(),
            LifecyclePhase::Refunded | LifecyclePhase::Failed => {
                if self.milestones.accepted_at.is_some() {
                    self.accepted_stage()
                } else {
                    pending_node("accepted", "ASP acceptance")
                }
            },
            LifecyclePhase::Expired => {
                if self.had_begun() {
                    self.accepted_stage()
                } else {
                    node_at(
                        "—",
                        "accepted",
                        "ASP acceptance timed out",
                        &self.times.milestones.expired_at,
                    )
                }
            },
            LifecyclePhase::Closed => {
                if self.had_begun() {
                    self.accepted_stage()
                } else {
                    pending_node("accepted", "ASP acceptance")
                }
            },
            _ => pending_node("accepted", "ASP acceptance"),
        }
    }

    fn executed_stage(&self) -> (r: LifecycleDisplayNode)
        ensures
            r@ == executed_stage(self@),
    {
        timed_node(
            "✓",
            "asp_execution",
            "ASP executed",
            time_range(
                as_deref(&self.times.milestones.accepted_at),
                as_deref(&self.times.milestones.submitted_at),
            ),
        )
    }

    fn execution_stage(&self) -> (r: LifecycleDisplayNode)
        ensures
            r@ == execution_stage(self@),
    {
        match self.phase {
            LifecyclePhase::AspExecuting => timed_node(
                "▶",
                "asp_execution",
                "ASP executing",
                begun_text(as_deref(&self.times.milestones.accepted_at)),
            ),
            LifecyclePhase::WaitingForUserReview => self.executed_stage(),
            LifecyclePhase::Rejected => self.executed_stage(),
            LifecyclePhase::Disputed => self.executed_stage(),
            LifecyclePhase::Completed => self.executed_stage(),
            LifecyclePhase::Refunded | LifecyclePhase::Failed => {
                if self.milestones.submitted_at.is_some() {
                    self.executed_stage()
                } else if self.milestones.accepted_at.is_some() {
                    timed_node(
                        "—",
                        "asp_execution",
                        "ASP execution ended",
                        time_range(
                            as_deref(&self.times.milestones.accepted_at),
                            self.refund_time(),
                        ),
                    )
                } else {
                    pending_node("asp_execution", "ASP execution")
                }
            },
            LifecyclePhase::Expired | LifecyclePhase::Closed => {
                if self.milestones.submitted_at.is_some() {
                    self.executed_stage()
                } else if self.had_begun() {
                    let title = if self.phase == LifecyclePhase::Expired {
                        "ASP submission timed out"
                    } else {
                        "ASP execution ended"
                    };
                    if self.milestones.expired_at.is_some() {
                        node_at("—", "asp_execution", title, &self.times.milestones.expired_at)
                    } else {
                        node_at("—", "asp_execution", title, &self.times.milestones.closed_at)
                    }
                } else {
                    pending_node("asp_execution", "ASP execution")
                }
            },
            _ => pending_node("asp_execution", "ASP execution"),
        }
    }

    fn rejected_stage(&self) -> (r: LifecycleDisplayNode)
        ensures
            r@ == rejected_stage(self@),
    {
        node_at(
            "✓",
            "user_review",
            "Deliverable rejected",
            &self.times.milestones.rejected_at,
        )
    }

    fn review_detail(&self) -> (r: String)
        ensures
            r@ == review_detail(self@),
    {
        let start = as_deref(&self.times.milestones.submitted_at);
        if self.milestones.review_expired_at.is_some() {
            return time_or_unavailable(as_deref(&self.times.milestones.review_expired_at));
        }
        if !self.deliverable_available {
            return time_with_word(
                start,
                " started; waiting for the deliverable",
                "Waiting for the deliverable",
            );
        }
        match (start, as_deref(&self.times.review_deadline)) {
            (Some(t), Some(end)) => t.to_string().concat(
                " started; accept or reject by ",
            ).concat(end),
            (Some(t), None) => t.to_string().concat(
                " started; accept or reject; deadline unavailable",
            ),
            (None, Some(end)) => "Accept or reject by ".to_string().concat(end),
            (None, None) => "Accept or reject the deliverable; timing unavailable".to_string(),
        }
    }

    fn review_stage(&self) -> (r: LifecycleDisplayNode)
        ensures
            r@ == review_stage(self@),
    {
        match self.phase {
            LifecyclePhase::Initializing => pending_review_node(self.deliverable_available),
            LifecyclePhase::WaitingForAsp => pending_review_node(self.deliverable_available),
            LifecyclePhase::AspExecuting => pending_review_node(self.deliverable_available),
            LifecyclePhase::WaitingForUserReview => {
                if self.milestones.review_expired_at.is_some() {
                    timed_node(
                        "—",
                        "user_review",
                        "Deliverable review period ended",
                        self.review_detail(),
                    )
                } else {
                    timed_node(
                        "▶",
                        "user_review",
                        "Waiting for you to review the deliverable",
                        self.review_detail(),
                    )
                }
            },
            LifecyclePhase::Rejected => self.rejected_stage(),
            LifecyclePhase::Disputed => self.rejected_stage(),
            LifecyclePhase::Completed => {
                if self.was_rejected() {
                    self.rejected_stage()
                } else {
                    timed_node(
                        "✓",
                        "user_review",
                        "Deliverable confirmed",
                        time_range(
                            as_deref(&self.times.milestones.submitted_at),
                            as_deref(&self.times.milestones.completed_at),
                        ),
                    )
                }
            },
            LifecyclePhase::Refunded | LifecyclePhase::Failed => {
                if self.was_rejected() {
                    self.rejected_stage()
                } else if self.milestones.submitted_at.is_some() {
                    timed_node(
                        "—",
                        "user_review",
                        "Deliverable review ended",
                        "The task ended before deliverable review".to_string(),
                    )
                } else {
                    pending_node("user_review", "Deliverable review")
                }
            },
            LifecyclePhase::Expired | LifecyclePhase::Closed => {
                if self.milestones.submitted_at.is_some() {
                    node_at(
                        "—",
                        "user_review",
                        "Deliverable review period ended",
                        self.end_time(),
                    )
                } else {
                    pending_node("user_review", "Deliverable review")
                }
            },
            _ => pending_node("user_review", "Deliverable review"),
        }
    }

    fn completion_stage(&self) -> (r: LifecycleDisplayNode)
        ensures
            r@ == completion_stage(self@),
    {
        match self.phase {
            LifecyclePhase::Completed => node_at(
                "✓",
                "completed",
                "Task completed",
                &self.times.milestones.completed_at,
            ),
            LifecyclePhase::Refunded | LifecyclePhase::Failed => timed_node(
                "—",
                "completed",
                "Task not completed",
                "Ended before normal completion".to_string(),
            ),
            _ => pending_node("completed", "Task completion"),
        }
    }

    fn timeline(&self) -> (r: Vec<LifecycleDisplayNode>)
        ensures
            nodes_view(r@) == timeline_of(self@),
    {
        let r = vec![
            self.creation_stage(),
            self.acceptance_stage(),
            self.execution_stage(),
            self.review_stage(),
            self.completion_stage(),
        ];
        assert(nodes_view(r@) =~= timeline_of(self@));
        r
    }

    fn resolved_span(&self) -> (r: String)
        ensures
            r@ == span(dispute_began(self@), self@.times.milestones.dispute_resolved_at),
    {
        time_range(self.dispute_began(), as_deref(&self.times.milestones.dispute_resolved_at))
    }

    fn resolved_stage(&self, result: &str) -> (r: LifecycleDisplayNode)
        ensures
            r@ == resolved_stage(self@, result@),
    {
        timed_node(
            "✓",
            "platform_review",
            "Platform review completed",
            self.resolved_span().concat(result),
        )
    }

    fn dispute_stage(&self) -> (r: LifecycleDisplayNode)
        ensures
            r@ == dispute_stage(self@),
    {
        let times = &self.times.milestones;
        if self.milestones.dispute_resolved_at.is_some() {
            timed_node(
                "✓",
                "platform_review",
                "Platform review completed",
                self.resolved_span(),
            )
        } else if self.phase == LifecyclePhase::Disputed {
            timed_node(
                "▶",
                "platform_review",
                "Platform review in progress",
                begun_text(as_deref(&times.disputed_at)),
            )
        } else if self.milestones.dispute_requested_at.is_some() {
            timed_node(
                "▶",
                "platform_review",
                "Waiting for platform review",
                time_with_word(
                    as_deref(&times.dispute_requested_at),
                    " requested",
                    "Request time unavailable",
                ),
            )
        } else if self.milestones.reject_expired_at.is_some() {
            node_at("▶", "refund_pending", "Waiting for refund", &times.reject_expired_at)
        } else {
            timed_node(
                "▶",
                "asp_response",
                "Waiting for ASP response",
                begun_text(as_deref(&times.rejected_at)),
            )
        }
    }

    fn returned_amount(&self) -> (r: Option<String>)
        ensures
            text::opt_view(r) == returned_amount(self@),
    {
        match self.token_amount {
            Some(amount) => {
                if amount.is_empty() {
                    return None;
                }
                if let Some(symbol) = self.token_symbol {
                    if !symbol.is_empty() {
                        return Some(
                            amount.to_string().concat(" ").concat(symbol).concat(" returned"),
                        );
                    }
                }
                Some(amount.to_string().concat(" returned"))
            },
            None => None,
        }
    }

    fn refund_stage(&self) -> (r: LifecycleDisplayNode)
        ensures
            r@ == refund_stage(self@),
    {
        let detail = match (self.refund_time(), self.returned_amount()) {
            (Some(time), Some(amount)) => Some(
                time.to_string().concat("; ").concat(amount.as_str()),
            ),
            (Some(time), None) => Some(time.to_string()),
            (None, amount) => amount,
        };
        node("✓", "refund", "Refund completed", detail)
    }

    fn follow_up(&self) -> (r: Vec<LifecycleDisplayNode>)
        ensures
            nodes_view(r@) == follow_up_of(self@),
    {
        let r = match self.phase {
            LifecyclePhase::Rejected | LifecyclePhase::Disputed => vec![self.dispute_stage()],
            LifecyclePhase::Completed => {
                if self.milestones.dispute_resolved_at.is_some() {
                    vec![self.resolved_stage("; result supports the ASP")]
                } else {
                    Vec::new()
                }
            },
            LifecyclePhase::Refunded | LifecyclePhase::Failed => {
                if self.milestones.dispute_resolved_at.is_some() {
                    vec![self.resolved_stage("; result supports you"), self.refund_stage()]
                } else {
                    vec![self.refund_stage()]
                }
            },
            LifecyclePhase::Expired => vec![
                node("✓", "expired", "Task expired", self.end_time().clone()),
            ],
            LifecyclePhase::Closed => vec![
                node("✓", "closed", "Task closed", self.end_time().clone()),
            ],
            _ => Vec::new(),
        };
        assert(nodes_view(r@) =~= follow_up_of(self@));
        r
    }

    fn progress_step(&self) -> (r: u8)
        ensures
            r == step_of(self@),
    {
        match self.phase {
            LifecyclePhase::WaitingForAsp => 2,
            LifecyclePhase::AspExecuting => 3,
            LifecyclePhase::WaitingForUserReview => 4,
            LifecyclePhase::Rejected => 4,
            LifecyclePhase::Disputed => 4,
            LifecyclePhase::Completed => 5,
            LifecyclePhase::Refunded | LifecyclePhase::Failed => {
                if self.was_rejected() || self.milestones.submitted_at.is_some() {
                    4
                } else if self.milestones.accepted_at.is_some() {
                    3
                } else {
                    2
                }
            },
            LifecyclePhase::Expired | LifecyclePhase::Closed => {
                if self.milestones.submitted_at.is_some() {
                    4
                } else if self.had_begun() {
                    3
                } else {
                    2
                }
            },
            _ => 1,
        }
    }

    fn words(&self) -> (r: (&'static str, &'static str, &'static str))
        ensures
            r.0@ == words_of(self@).summary,
            r.1@ == words_of(self@).handled_by,
            r.2@ == words_of(self@).next,
    {
        match self.phase {
            LifecyclePhase::Initializing => ("Creating task", "Platform", "Wait for task creation"),
            LifecyclePhase::WaitingForAsp => (
                "Waiting for ASP acceptance",
                "ASP",
                "Wait for the ASP to accept",
            ),
            LifecyclePhase::AspExecuting => ("ASP executing", "ASP", "Wait for the ASP to submit"),
            LifecyclePhase::WaitingForUserReview => {
                if self.milestones.review_expired_at.is_some() {
                    ("Waiting for task completion", "ASP", "Wait for the final result")
                } else if self.deliverable_available {
                    (
                        "Waiting for you to review the deliverable",
                        "You",
                        "Accept or reject the deliverable",
                    )
                } else {
                    ("Waiting for the deliverable", "ASP", "Wait for the deliverable to arrive")
                }
            },
            LifecyclePhase::Rejected | LifecyclePhase::Disputed => {
                if self.milestones.dispute_resolved_at.is_some() {
                    ("Platform review completed", "Platform", "Wait for the final task result")
                } else if self.phase == LifecyclePhase::Disputed {
                    ("Platform review in progress", "Platform", "Wait for the result")
                } else {
                    ("Waiting for the next response", "ASP", "Wait for the result")
                }
            },
            LifecyclePhase::Completed => (
                "Task completed",
                "No action needed",
                "No further action",
            ),
            LifecyclePhase::Refunded | LifecyclePhase::Failed => (
                "Refund completed",
                "No action needed",
                "No further action",
            ),
            LifecyclePhase::Expired => ("Task expired", "No action needed", "No further action"),
            LifecyclePhase::Closed => ("Task closed", "No action needed", "No further action"),
            _ => ("Task status unavailable", "Unknown", "Try again later"),
        }
    }

    /// The display of this scene.
    pub fn draw(&self, notice: Option<&str>) -> (r: LifecycleDisplay)
        ensures
            r@ == display_of(self@, text::opt_str_view(notice)),
    {
        let (summary, handled_by, next) = self.words();
        let choices: Vec<String> = Vec::new();
        assert(events::texts_view(choices@) =~= Seq::empty());
        LifecycleDisplay {
            template_id: None,
            progress_step: self.progress_step(),
            progress_total: 5,
            deliverable_available: self.deliverable_available,
            review_ready: self.phase == LifecyclePhase::WaitingForUserReview
                && self.deliverable_available && self.milestones.review_expired_at.is_none(),
            timeline: self.timeline(),
            follow_up: self.follow_up(),
            choices,
            current_summary: summary.to_string(),
            handled_by: handled_by.to_string(),
            next: next.to_string(),
            notice: owned(notice),
        }
    }
}

/// Makes an optional text one of its own.
pub fn owned(value: Option<&str>) -> (r: Option<String>)
    ensures
        text::opt_view(r) == text::opt_str_view(value),
{
    match value {
        Some(t) => Some(t.to_string()),
        None => None,
    }
}

/// Whether a display is that of a one-time task, with the local times of the
/// milestones and deadline as some time zone writes them.
pub open spec fn is_display_of(
    display: DisplayView,
    scene: SceneView,
    review_deadline: Option<Seq<char>>,
    notice: Option<Seq<char>>,
) -> bool {
    exists|times: LocalTimesView| #[trigger]
        are_times_of(times, scene.milestones, review_deadline) && display == display_of(
            (SceneView { times, ..scene }),
            notice,
        )
}

/// The scene of a one-time task, but for its local times.
pub open spec fn scene_of(
    phase: LifecyclePhase,
    milestones: MilestonesView,
    token_amount: Option<Seq<char>>,
    token_symbol: Option<Seq<char>>,
    events: Seq<EventView>,
    deliverable_available: bool,
) -> SceneView {
    SceneView {
        phase,
        milestones,
        times: LocalTimesView { milestones: milestones::no_milestones(), review_deadline: None },
        token_amount,
        token_symbol,
        events,
        deliverable_available,
    }
}

/// Builds the display of a one-time task, with times in the local time zone.
pub fn build_display(
    phase: LifecyclePhase,
    milestones: &Milestones,
    review_deadline_at: Option<&str>,
    token_amount: Option<&str>,
    token_symbol: Option<&str>,
    events: &[LifecycleEvent],
    deliverable_available: bool,
    notice: Option<&str>,
) -> (r: LifecycleDisplay)
    ensures
        is_display_of(
            r@,
            scene_of(
                phase,
                milestones@,
                text::opt_str_view(token_amount),
                text::opt_str_view(token_symbol),
                events::events_view(events@),
                deliverable_available,
            ),
            text::opt_str_view(review_deadline_at),
            text::opt_str_view(notice),
        ),
{
    let times = local_times(milestones, review_deadline_at);
    let scene = Scene {
        phase,
        milestones,
        times: &times,
        token_amount,
        token_symbol,
        events,
        deliverable_available,
    };
    scene.draw(notice)
}

/// What the timeline says first, before a creation is confirmed.
pub open spec fn submitted_creation_stage() -> NodeView {
    stage(
        "▶"@,
        "created"@,
        "Creating task"@,
        "Creation submitted; waiting for task confirmation"@,
    )
}

/// The display of a task whose creation has just been submitted.
pub open spec fn initial_display() -> DisplayView {
    let drawn = display_of(
        scene_of(
            LifecyclePhase::Initializing,
            milestones::no_milestones(),
            None,
            None,
            Seq::empty(),
            false,
        ),
        None,
    );
    DisplayView { timeline: drawn.timeline.update(0, submitted_creation_stage()), ..drawn }
}

/// Builds the display of a task whose creation has just been submitted. Its
/// confirmation may still be on the way, so the first stage is active and says
/// only that.
pub fn initial_creation_display() -> (r: LifecycleDisplay)
    ensures
        r@ == initial_display(),
{
    let milestones = Milestones::default();
    let events: Vec<LifecycleEvent> = Vec::new();
    let mut display = build_display(
        LifecyclePhase::Initializing,
        &milestones,
        None,
        None,
        None,
        events.as_slice(),
        false,
        None,
    );
    proof {
        assert(events::events_view(events@) =~= Seq::empty());
        let none = LocalTimesView {
            milestones: milestones::no_milestones(),
            review_deadline: None,
        };
        assert forall|times: LocalTimesView| #[trigger]
            are_times_of(times, milestones::no_milestones(), None) implies times == none by {
            assert(times =~= none);
        }
        assert(nodes_view(display.timeline@).len() == 5);
    }
    let first = node(
        "▶",
        "created",
        "Creating task",
        Some("Creation submitted; waiting for task confirmation".to_string()),
    );
    let ghost before = display.timeline@;
    display.timeline.set(0, first);
    assert(nodes_view(display.timeline@) =~= nodes_view(before).update(0, first@));
    display
}

} // verus!
