//! What each stage of the timeline of a one-time task says, and when.

use vstd::prelude::*;

use crate::display;
use crate::display::{DisplayView, SceneView};
use crate::deadline;
use crate::events::{EventView, LifecycleEventKind};
use crate::milestones::MilestonesView;
use crate::phase::LifecyclePhase;

verus! {

/// Whether a rejection of the deliverable is known, by its time or by an event.
pub open spec fn rejection_known(s: SceneView) -> bool {
    s.milestones.rejected_at is Some || exists|i: int|
        0 <= i < s.events.len() && (#[trigger] s.events[i]).kind == LifecycleEventKind::Rejected
}

/// Whether the ASP is known to have begun: an acceptance is known, or the last
/// event says that the time for the submission ran out.
pub open spec fn beginning_known(s: SceneView) -> bool {
    s.milestones.accepted_at is Some || (s.events.len() > 0 && s.events.last().name
        == "submit_expired"@)
}

/// The first stage says that the task is being created, was created, or is not
/// known to be.
pub proof fn creation_titles(s: SceneView, notice: Option<Seq<char>>)
    ensures
        display::display_of(s, notice).timeline[0].title == "Creating task"@
            <==> (s.phase == LifecyclePhase::Initializing),
        display::display_of(s, notice).timeline[0].title == "Task creation"@
            <==> (s.phase == LifecyclePhase::FreeTrial
            || s.phase == LifecyclePhase::ActiveSubscription
            || s.phase == LifecyclePhase::RenewalGracePeriod
            || s.phase == LifecyclePhase::AwaitingAspDecision
            || s.phase == LifecyclePhase::Unknown),
        display::display_of(s, notice).timeline[0].title == "Task created"@
            <==> !(s.phase == LifecyclePhase::Initializing || s.phase == LifecyclePhase::FreeTrial
            || s.phase == LifecyclePhase::ActiveSubscription
            || s.phase == LifecyclePhase::RenewalGracePeriod
            || s.phase == LifecyclePhase::AwaitingAspDecision
            || s.phase == LifecyclePhase::Unknown),
        display::display_of(s, notice).timeline[0].title == "Creating task"@
            ==> display::display_of(
            s,
            notice,
        ).timeline[0].marker == "▶"@,
        display::display_of(s, notice).timeline[0].title == "Task creation"@
            ==> display::display_of(
            s,
            notice,
        ).timeline[0].marker == "○"@,
        display::display_of(s, notice).timeline[0].title == "Task created"@ ==> display::display_of(
            s,
            notice,
        ).timeline[0].marker == "✓"@,
{
    reveal_strlit("Creating task");
    reveal_strlit("Task creation");
    reveal_strlit("Task created");
    reveal_strlit("submit_expired");
    assert("Creating task"@.len() == 13);
    assert("Task creation"@.len() == 13);
    assert("Task created"@.len() == 12);
    assert("submit_expired"@.len() == 14);
    assert("Creating task"@[0] != "Task creation"@[0]);
}

/// The second stage says that the ASP accepted only where the phase or a known
/// beginning does.
pub proof fn acceptance_titles(s: SceneView, notice: Option<Seq<char>>)
    ensures
        display::display_of(s, notice).timeline[1].title == "Waiting for ASP acceptance"@
            <==> (s.phase == LifecyclePhase::WaitingForAsp),
        display::display_of(s, notice).timeline[1].title == "ASP acceptance timed out"@
            <==> (s.phase == LifecyclePhase::Expired) && !beginning_known(s),
        display::display_of(s, notice).timeline[1].title == "ASP accepted"@
            <==> (s.phase == LifecyclePhase::AspExecuting
            || s.phase == LifecyclePhase::WaitingForUserReview
            || s.phase == LifecyclePhase::Rejected || s.phase == LifecyclePhase::Disputed
            || s.phase == LifecyclePhase::Completed) || ((s.phase == LifecyclePhase::Refunded
            || s.phase == LifecyclePhase::Failed) && s.milestones.accepted_at is Some)
            || ((s.phase == LifecyclePhase::Expired || s.phase == LifecyclePhase::Closed)
            && beginning_known(s)),
        display::display_of(s, notice).timeline[1].title == "ASP acceptance"@
            <==> (s.phase == LifecyclePhase::Initializing || s.phase == LifecyclePhase::FreeTrial
            || s.phase == LifecyclePhase::ActiveSubscription
            || s.phase == LifecyclePhase::RenewalGracePeriod
            || s.phase == LifecyclePhase::AwaitingAspDecision
            || s.phase == LifecyclePhase::Unknown) || ((s.phase == LifecyclePhase::Refunded
            || s.phase == LifecyclePhase::Failed) && s.milestones.accepted_at is None)
            || ((s.phase == LifecyclePhase::Closed) && !beginning_known(s)),
        display::display_of(s, notice).timeline[1].title == "Waiting for ASP acceptance"@
            ==> display::display_of(
            s,
            notice,
        ).timeline[1].marker == "▶"@,
        display::display_of(s, notice).timeline[1].title == "ASP acceptance timed out"@
            ==> display::display_of(
            s,
            notice,
        ).timeline[1].marker == "—"@,
        display::display_of(s, notice).timeline[1].title == "ASP accepted"@ ==> display::display_of(
            s,
            notice,
        ).timeline[1].marker == "✓"@,
        display::display_of(s, notice).timeline[1].title == "ASP acceptance"@
            ==> display::display_of(
            s,
            notice,
        ).timeline[1].marker == "○"@,
{
    reveal_strlit("Waiting for ASP acceptance");
    reveal_strlit("ASP acceptance timed out");
    reveal_strlit("ASP accepted");
    reveal_strlit("ASP acceptance");
    reveal_strlit("submit_expired");
    assert("Waiting for ASP acceptance"@.len() == 26);
    assert("ASP acceptance timed out"@.len() == 24);
    assert("ASP accepted"@.len() == 12);
    assert("ASP acceptance"@.len() == 14);
    assert("submit_expired"@.len() == 14);
    assert("ASP acceptance"@[0] != "submit_expired"@[0]);
}

/// The third stage says that the ASP delivered only where the phase or a known
/// submission does.
pub proof fn execution_titles(s: SceneView, notice: Option<Seq<char>>)
    ensures
        display::display_of(s, notice).timeline[2].title == "ASP executing"@
            <==> (s.phase == LifecyclePhase::AspExecuting),
        display::display_of(s, notice).timeline[2].title == "ASP executed"@
            <==> (s.phase == LifecyclePhase::WaitingForUserReview
            || s.phase == LifecyclePhase::Rejected || s.phase == LifecyclePhase::Disputed
            || s.phase == LifecyclePhase::Completed) || ((s.phase == LifecyclePhase::Refunded
            || s.phase == LifecyclePhase::Failed || s.phase == LifecyclePhase::Expired
            || s.phase == LifecyclePhase::Closed) && s.milestones.submitted_at is Some),
        display::display_of(s, notice).timeline[2].title == "ASP submission timed out"@
            <==> (s.phase == LifecyclePhase::Expired) && s.milestones.submitted_at is None
            && beginning_known(s),
        display::display_of(s, notice).timeline[2].title == "ASP execution ended"@
            <==> ((s.phase == LifecyclePhase::Refunded || s.phase == LifecyclePhase::Failed)
            && s.milestones.submitted_at is None && s.milestones.accepted_at is Some)
            || ((s.phase == LifecyclePhase::Closed) && s.milestones.submitted_at is None
            && beginning_known(s)),
        display::display_of(s, notice).timeline[2].title == "ASP execution"@
            <==> (s.phase == LifecyclePhase::Initializing
            || s.phase == LifecyclePhase::WaitingForAsp || s.phase == LifecyclePhase::FreeTrial
            || s.phase == LifecyclePhase::ActiveSubscription
            || s.phase == LifecyclePhase::RenewalGracePeriod
            || s.phase == LifecyclePhase::AwaitingAspDecision
            || s.phase == LifecyclePhase::Unknown) || ((s.phase == LifecyclePhase::Refunded
            || s.phase == LifecyclePhase::Failed) && s.milestones.submitted_at is None
            && s.milestones.accepted_at is None) || ((s.phase == LifecyclePhase::Expired
            || s.phase == LifecyclePhase::Closed) && s.milestones.submitted_at is None
            && !beginning_known(s)),
        display::display_of(s, notice).timeline[2].title == "ASP executing"@
            ==> display::display_of(
            s,
            notice,
        ).timeline[2].marker == "▶"@,
        display::display_of(s, notice).timeline[2].title == "ASP executed"@ ==> display::display_of(
            s,
            notice,
        ).timeline[2].marker == "✓"@,
        display::display_of(s, notice).timeline[2].title == "ASP submission timed out"@
            ==> display::display_of(
            s,
            notice,
        ).timeline[2].marker == "—"@,
        display::display_of(s, notice).timeline[2].title == "ASP execution ended"@
            ==> display::display_of(
            s,
            notice,
        ).timeline[2].marker == "—"@,
        display::display_of(s, notice).timeline[2].title == "ASP execution"@
            ==> display::display_of(
            s,
            notice,
        ).timeline[2].marker == "○"@,
{
    reveal_strlit("ASP executing");
    reveal_strlit("ASP executed");
    reveal_strlit("ASP submission timed out");
    reveal_strlit("ASP execution ended");
    reveal_strlit("ASP execution");
    reveal_strlit("submit_expired");
    assert("ASP executing"@.len() == 13);
    assert("ASP executed"@.len() == 12);
    assert("ASP submission timed out"@.len() == 24);
    assert("ASP execution ended"@.len() == 19);
    assert("ASP execution"@.len() == 13);
    assert("submit_expired"@.len() == 14);
    assert("ASP executing"@[11] != "ASP execution"@[11]);
}

/// The fourth stage says that the deliverable was rejected only where the phase
/// or a known rejection does, and that it was confirmed only where the task was
/// completed without one.
pub proof fn review_titles(s: SceneView, notice: Option<Seq<char>>)
    ensures
        display::display_of(s, notice).timeline[3].title
            == "Waiting for you to review the deliverable"@
            <==> (s.phase == LifecyclePhase::WaitingForUserReview)
            && s.milestones.review_expired_at is None,
        display::display_of(s, notice).timeline[3].title == "Deliverable rejected"@
            <==> (s.phase == LifecyclePhase::Rejected || s.phase == LifecyclePhase::Disputed)
            || ((s.phase == LifecyclePhase::Completed || s.phase == LifecyclePhase::Refunded
            || s.phase == LifecyclePhase::Failed) && rejection_known(s)),
        display::display_of(s, notice).timeline[3].title == "Deliverable confirmed"@
            <==> (s.phase == LifecyclePhase::Completed) && !rejection_known(s),
        display::display_of(s, notice).timeline[3].title == "Deliverable review ended"@
            <==> (s.phase == LifecyclePhase::Refunded || s.phase == LifecyclePhase::Failed)
            && !rejection_known(s) && s.milestones.submitted_at is Some,
        display::display_of(s, notice).timeline[3].title == "Deliverable review period ended"@
            <==> ((s.phase == LifecyclePhase::WaitingForUserReview)
            && s.milestones.review_expired_at is Some) || ((s.phase == LifecyclePhase::Expired
            || s.phase == LifecyclePhase::Closed) && s.milestones.submitted_at is Some),
        display::display_of(s, notice).timeline[3].title == "Deliverable review"@
            <==> (s.phase == LifecyclePhase::Initializing
            || s.phase == LifecyclePhase::WaitingForAsp || s.phase == LifecyclePhase::AspExecuting
            || s.phase == LifecyclePhase::FreeTrial
            || s.phase == LifecyclePhase::ActiveSubscription
            || s.phase == LifecyclePhase::RenewalGracePeriod
            || s.phase == LifecyclePhase::AwaitingAspDecision
            || s.phase == LifecyclePhase::Unknown) || ((s.phase == LifecyclePhase::Refunded
            || s.phase == LifecyclePhase::Failed) && !rejection_known(s)
            && s.milestones.submitted_at is None) || ((s.phase == LifecyclePhase::Expired
            || s.phase == LifecyclePhase::Closed) && s.milestones.submitted_at is None),
        display::display_of(s, notice).timeline[3].title
            == "Waiting for you to review the deliverable"@ ==> display::display_of(
            s,
            notice,
        ).timeline[3].marker == "▶"@,
        display::display_of(s, notice).timeline[3].title == "Deliverable rejected"@
            ==> display::display_of(
            s,
            notice,
        ).timeline[3].marker == "✓"@,
        display::display_of(s, notice).timeline[3].title == "Deliverable confirmed"@
            ==> display::display_of(
            s,
            notice,
        ).timeline[3].marker == "✓"@,
        display::display_of(s, notice).timeline[3].title == "Deliverable review ended"@
            ==> display::display_of(
            s,
            notice,
        ).timeline[3].marker == "—"@,
        display::display_of(s, notice).timeline[3].title == "Deliverable review period ended"@
            ==> display::display_of(
            s,
            notice,
        ).timeline[3].marker == "—"@,
        display::display_of(s, notice).timeline[3].title == "Deliverable review"@
            ==> display::display_of(
            s,
            notice,
        ).timeline[3].marker == "○"@,
{
    reveal_strlit("Waiting for you to review the deliverable");
    reveal_strlit("Deliverable rejected");
    reveal_strlit("Deliverable confirmed");
    reveal_strlit("Deliverable review ended");
    reveal_strlit("Deliverable review period ended");
    reveal_strlit("Deliverable review");
    reveal_strlit("submit_expired");
    assert("Waiting for you to review the deliverable"@.len() == 41);
    assert("Deliverable rejected"@.len() == 20);
    assert("Deliverable confirmed"@.len() == 21);
    assert("Deliverable review ended"@.len() == 24);
    assert("Deliverable review period ended"@.len() == 31);
    assert("Deliverable review"@.len() == 18);
    assert("submit_expired"@.len() == 14);
    assert(display::was_rejected(s) == rejection_known(s));
}

/// The last stage says that the task was completed just where it was.
pub proof fn completion_titles(s: SceneView, notice: Option<Seq<char>>)
    ensures
        display::display_of(s, notice).timeline[4].title == "Task completed"@
            <==> (s.phase == LifecyclePhase::Completed),
        display::display_of(s, notice).timeline[4].title == "Task not completed"@
            <==> (s.phase == LifecyclePhase::Refunded || s.phase == LifecyclePhase::Failed),
        display::display_of(s, notice).timeline[4].title == "Task completion"@
            <==> !(s.phase == LifecyclePhase::Completed || s.phase == LifecyclePhase::Refunded
            || s.phase == LifecyclePhase::Failed),
        display::display_of(s, notice).timeline[4].title == "Task completed"@
            ==> display::display_of(
            s,
            notice,
        ).timeline[4].marker == "✓"@,
        display::display_of(s, notice).timeline[4].title == "Task not completed"@
            ==> display::display_of(
            s,
            notice,
        ).timeline[4].marker == "—"@,
        display::display_of(s, notice).timeline[4].title == "Task completion"@
            ==> display::display_of(
            s,
            notice,
        ).timeline[4].marker == "○"@,
{
    reveal_strlit("Task completed");
    reveal_strlit("Task not completed");
    reveal_strlit("Task completion");
    reveal_strlit("submit_expired");
    assert("Task completed"@.len() == 14);
    assert("Task not completed"@.len() == 18);
    assert("Task completion"@.len() == 15);
    assert("submit_expired"@.len() == 14);
    assert("Task completed"@[0] != "submit_expired"@[0]);
}

/// No stage and nothing beside the stages says that the deliverable was rejected
/// unless the phase is one after a rejection or a rejection is known.
pub proof fn rejections_are_known(s: SceneView, notice: Option<Seq<char>>, i: int)
    requires
        0 <= i < 5,
    ensures
        display::display_of(s, notice).timeline[i].title == "Deliverable rejected"@ ==> s.phase
            == LifecyclePhase::Rejected || s.phase == LifecyclePhase::Disputed
            || rejection_known(s),
        display::display_of(s, notice).timeline[i].title == "Deliverable confirmed"@ ==> s.phase
            == LifecyclePhase::Completed && !rejection_known(s),
        display::display_of(s, notice).timeline[i].title == "Task completed"@ ==> s.phase
            == LifecyclePhase::Completed,
{
    review_titles(s, notice);
    completion_titles(s, notice);
    reveal_strlit("Creating task");
    reveal_strlit("Task creation");
    reveal_strlit("Task created");
    reveal_strlit("Waiting for ASP acceptance");
    reveal_strlit("ASP acceptance timed out");
    reveal_strlit("ASP accepted");
    reveal_strlit("ASP acceptance");
    reveal_strlit("ASP executing");
    reveal_strlit("ASP executed");
    reveal_strlit("ASP submission timed out");
    reveal_strlit("ASP execution ended");
    reveal_strlit("ASP execution");
    reveal_strlit("Waiting for you to review the deliverable");
    reveal_strlit("Deliverable rejected");
    reveal_strlit("Deliverable confirmed");
    reveal_strlit("Deliverable review ended");
    reveal_strlit("Deliverable review period ended");
    reveal_strlit("Deliverable review");
    reveal_strlit("Task completed");
    reveal_strlit("Task not completed");
    reveal_strlit("Task completion");
    assert("Creating task"@.len() == 13);
    assert("Task creation"@.len() == 13);
    assert("Task created"@.len() == 12);
    assert("Waiting for ASP acceptance"@.len() == 26);
    assert("ASP acceptance timed out"@.len() == 24);
    assert("ASP accepted"@.len() == 12);
    assert("ASP acceptance"@.len() == 14);
    assert("ASP executing"@.len() == 13);
    assert("ASP executed"@.len() == 12);
    assert("ASP submission timed out"@.len() == 24);
    assert("ASP execution ended"@.len() == 19);
    assert("ASP execution"@.len() == 13);
    assert("Waiting for you to review the deliverable"@.len() == 41);
    assert("Deliverable rejected"@.len() == 20);
    assert("Deliverable confirmed"@.len() == 21);
    assert("Deliverable review ended"@.len() == 24);
    assert("Deliverable review period ended"@.len() == 31);
    assert("Deliverable review"@.len() == 18);
    assert("Task completed"@.len() == 14);
    assert("Task not completed"@.len() == 18);
    assert("Task completion"@.len() == 15);
    assert("Creating task"@[0] != "Task creation"@[0]);
    assert("Creating task"@[0] != "ASP executing"@[0]);
    assert("Creating task"@[0] != "ASP execution"@[0]);
    assert("Task creation"@[0] != "ASP executing"@[0]);
    assert("Task creation"@[0] != "ASP execution"@[0]);
    assert("Task created"@[0] != "ASP accepted"@[0]);
    assert("Task created"@[0] != "ASP executed"@[0]);
    assert("ASP acceptance timed out"@[4] != "ASP submission timed out"@[4]);
    assert("ASP acceptance timed out"@[0] != "Deliverable review ended"@[0]);
    assert("ASP accepted"@[4] != "ASP executed"@[4]);
    assert("ASP acceptance"@[0] != "Task completed"@[0]);
    assert("ASP executing"@[11] != "ASP execution"@[11]);
    assert("ASP submission timed out"@[0] != "Deliverable review ended"@[0]);
    assert("Deliverable review"@[0] != "Task not completed"@[0]);
}

/// Titles of the five stages, whatever local times the display shows.
pub proof fn displays_show_these_titles(
    shown: DisplayView,
    phase: LifecyclePhase,
    known: MilestonesView,
    amount: Option<Seq<char>>,
    symbol: Option<Seq<char>>,
    list: Seq<EventView>,
    deliverable: bool,
    review_deadline: Option<Seq<char>>,
    notice: Option<Seq<char>>,
)
    requires
        display::is_display_of(
            shown,
            display::scene_of(phase, known, amount, symbol, list, deliverable),
            review_deadline,
            notice,
        ),
    ensures
        ({
            let rejected = known.rejected_at is Some || exists|i: int|
                0 <= i < list.len() && (#[trigger] list[i]).kind == LifecycleEventKind::Rejected;
            &&& phase == LifecyclePhase::Completed ==> (shown.timeline[3].title
                == "Deliverable rejected"@ <==> rejected)
            &&& phase == LifecyclePhase::Completed && !rejected ==> shown.timeline[3].title
                == "Deliverable confirmed"@
            &&& shown.timeline[4].title == "Task completed"@ <==> phase
                == LifecyclePhase::Completed
            &&& shown.notice == notice
            &&& shown.deliverable_available == deliverable
            &&& exists|times: display::LocalTimesView| #[trigger]
                display::are_times_of(times, known, review_deadline)
                    && shown == display::display_of(
                    (SceneView {
                        phase,
                        milestones: known,
                        times,
                        token_amount: amount,
                        token_symbol: symbol,
                        events: list,
                        deliverable_available: deliverable,
                    }),
                    notice,
                )
        }),
{
    let scene = display::scene_of(phase, known, amount, symbol, list, deliverable);
    let times = choose|times: display::LocalTimesView| #[trigger]
        display::are_times_of(times, scene.milestones, review_deadline) && shown
            == display::display_of((SceneView { times, ..scene }), notice);
    let s = SceneView { times, ..scene };
    review_titles(s, notice);
    completion_titles(s, notice);
    assert(s == (SceneView {
        phase,
        milestones: known,
        times,
        token_amount: amount,
        token_symbol: symbol,
        events: list,
        deliverable_available: deliverable,
    }));
}

/// Local times stand for the milestones of the same name.
pub proof fn local_times_keep_their_places(
    times: display::LocalTimesView,
    known: MilestonesView,
    review_deadline: Option<Seq<char>>,
)
    requires
        display::are_times_of(times, known, review_deadline),
    ensures
        deadline::is_time_of(times.milestones.created_at, known.created_at),
        deadline::is_time_of(times.milestones.accepted_at, known.accepted_at),
        deadline::is_time_of(times.milestones.submitted_at, known.submitted_at),
        deadline::is_time_of(times.milestones.completed_at, known.completed_at),
        deadline::is_time_of(times.milestones.rejected_at, known.rejected_at),
        deadline::is_time_of(times.milestones.dispute_requested_at, known.dispute_requested_at),
        deadline::is_time_of(times.milestones.disputed_at, known.disputed_at),
        deadline::is_time_of(times.milestones.dispute_resolved_at, known.dispute_resolved_at),
        deadline::is_time_of(times.milestones.review_expired_at, known.review_expired_at),
        deadline::is_time_of(times.milestones.reject_expired_at, known.reject_expired_at),
        deadline::is_time_of(times.milestones.closed_at, known.closed_at),
        deadline::is_time_of(times.milestones.expired_at, known.expired_at),
        deadline::is_time_of(times.milestones.refunded_at, known.refunded_at),
        deadline::is_time_of(times.milestones.failed_at, known.failed_at),
        deadline::is_time_of(times.review_deadline, review_deadline),
{
}

/// A span names both of its ends, or says which one is missing.
pub proof fn spans_name_their_ends(start: Seq<char>, end: Seq<char>)
    ensures
        display::span(Some(start), Some(end)) == start + " - "@ + end,
        display::span(Some(start), None) == start + " started; end time unavailable"@,
        display::span(None, Some(end)) == "Completed at "@ + end + "; start time unavailable"@,
        display::span(None, None) == "Time unavailable"@,
        display::time_or_none(Some(start)) == start,
        display::time_or_none(None) == "Time unavailable"@,
        display::begun(Some(start)) == start + " started"@,
        display::begun(None) == "Start time unavailable"@,
{
}

/// What the stages say of their times: each the times of its own milestones.
pub proof fn stages_show_their_own_times(s: SceneView, notice: Option<Seq<char>>)
    ensures
        ({
            let shown = display::display_of(s, notice).timeline;
            let t = s.times.milestones;
            &&& shown[0].title == "Task created"@ ==> shown[0].detail == Some(
                display::time_or_none(t.created_at),
            )
            &&& shown[1].title == "Waiting for ASP acceptance"@ ==> shown[1].detail == Some(
                display::begun(t.created_at),
            )
            &&& shown[1].title == "ASP accepted"@ ==> shown[1].detail == Some(
                display::time_or_none(t.accepted_at),
            )
            &&& shown[1].title == "ASP acceptance timed out"@ ==> shown[1].detail == Some(
                display::time_or_none(t.expired_at),
            )
            &&& shown[2].title == "ASP executing"@ ==> shown[2].detail == Some(
                display::begun(t.accepted_at),
            )
            &&& shown[2].title == "ASP executed"@ ==> shown[2].detail == Some(
                display::span(t.accepted_at, t.submitted_at),
            )
            &&& shown[2].title == "ASP execution ended"@ && s.phase != LifecyclePhase::Closed
                ==> shown[2].detail == Some(
                display::span(
                    t.accepted_at,
                    if s.milestones.refunded_at is Some {
                        t.refunded_at
                    } else {
                        t.failed_at
                    },
                ),
            )
            &&& (shown[2].title == "ASP submission timed out"@ || (shown[2].title
                == "ASP execution ended"@ && s.phase == LifecyclePhase::Closed))
                ==> shown[2].detail == Some(
                display::time_or_none(
                    if s.milestones.expired_at is Some {
                        t.expired_at
                    } else {
                        t.closed_at
                    },
                ),
            )
            &&& shown[3].title == "Deliverable rejected"@ ==> shown[3].detail == Some(
                display::time_or_none(t.rejected_at),
            )
            &&& shown[3].title == "Deliverable confirmed"@ ==> shown[3].detail == Some(
                display::span(t.submitted_at, t.completed_at),
            )
            &&& shown[3].title == "Deliverable review ended"@ ==> shown[3].detail == Some(
                "The task ended before deliverable review"@,
            )
            &&& shown[3].title == "Deliverable review period ended"@ ==> shown[3].detail == Some(
                display::time_or_none(
                    if s.phase == LifecyclePhase::WaitingForUserReview {
                        t.review_expired_at
                    } else if s.phase == LifecyclePhase::Expired {
                        t.expired_at
                    } else {
                        t.closed_at
                    },
                ),
            )
            &&& shown[4].title == "Task completed"@ ==> shown[4].detail == Some(
                display::time_or_none(t.completed_at),
            )
            &&& shown[4].title == "Task not completed"@ ==> shown[4].detail == Some(
                "Ended before normal completion"@,
            )
            &&& shown[0].title == "Creating task"@ ==> shown[0].detail == Some(
                "Start time unavailable"@,
            )
        }),
{
    creation_titles(s, notice);
    acceptance_titles(s, notice);
    execution_titles(s, notice);
    review_titles(s, notice);
    completion_titles(s, notice);
}

/// What is said of a review that is due: until when it can be accepted or
/// rejected, as far as the deliverable is there.
pub proof fn due_reviews_name_their_deadline(s: SceneView, notice: Option<Seq<char>>)
    requires
        s.phase == LifecyclePhase::WaitingForUserReview,
        s.milestones.review_expired_at is None,
    ensures
        ({
            let said = display::display_of(s, notice).timeline[3].detail;
            let start = s.times.milestones.submitted_at;
            let end = s.times.review_deadline;
            &&& !s.deliverable_available && start is Some ==> said == Some(
                start->0 + " started; waiting for the deliverable"@,
            )
            &&& !s.deliverable_available && start is None ==> said == Some(
                "Waiting for the deliverable"@,
            )
            &&& s.deliverable_available && start is Some && end is Some ==> said == Some(
                start->0 + " started; accept or reject by "@ + end->0,
            )
            &&& s.deliverable_available && start is Some && end is None ==> said == Some(
                start->0 + " started; accept or reject; deadline unavailable"@,
            )
            &&& s.deliverable_available && start is None && end is Some ==> said == Some(
                "Accept or reject by "@ + end->0,
            )
            &&& s.deliverable_available && start is None && end is None ==> said == Some(
                "Accept or reject the deliverable; timing unavailable"@,
            )
        }),
{
}

/// A stage that is not reached says so; one whose deliverable has come early says
/// that the status is behind.
pub proof fn unreached_stages_say_so(s: SceneView, notice: Option<Seq<char>>, i: int)
    requires
        0 <= i < 5,
        display::display_of(s, notice).timeline[i].marker == "○"@,
    ensures
        ({
            let said = display::display_of(s, notice).timeline[i].detail;
            let early = s.deliverable_available && (s.phase == LifecyclePhase::Initializing
                || s.phase == LifecyclePhase::WaitingForAsp || s.phase
                == LifecyclePhase::AspExecuting);
            &&& i == 4 ==> said == Some("Not completed"@)
            &&& i == 3 && early ==> said == Some(
                "Deliverable received; waiting for the task status update"@,
            )
            &&& i < 3 || (i == 3 && !early) ==> said == Some("Not started"@)
        }),
{
    reveal_strlit("✓");
    reveal_strlit("▶");
    reveal_strlit("○");
    reveal_strlit("—");
    assert("✓"@.len() == 1);
    assert("▶"@.len() == 1);
    assert("○"@.len() == 1);
    assert("—"@.len() == 1);
    assert("✓"@[0] != "▶"@[0]);
    assert("✓"@[0] != "○"@[0]);
    assert("✓"@[0] != "—"@[0]);
    assert("▶"@[0] != "○"@[0]);
    assert("▶"@[0] != "—"@[0]);
    assert("○"@[0] != "—"@[0]);
    reveal_strlit("completed");
    reveal_strlit("created");
    reveal_strlit("accepted");
    reveal_strlit("asp_execution");
    reveal_strlit("user_review");
    assert("completed"@.len() == 9);
    assert("created"@.len() == 7);
    assert("accepted"@.len() == 8);
    assert("asp_execution"@.len() == 13);
    assert("user_review"@.len() == 11);
}

/// The summary, the handler and the next step of each phase.
pub proof fn words_belong_to_their_phases(s: SceneView, notice: Option<Seq<char>>)
    ensures
        ({
            let shown = display::display_of(s, notice);
            let resolved = s.milestones.dispute_resolved_at is Some;
            let expired = s.milestones.review_expired_at is Some;
            &&& shown.current_summary == "Creating task"@
                <==> (s.phase == LifecyclePhase::Initializing)
            &&& shown.current_summary == "Creating task"@ ==> shown.handled_by == "Platform"@
                && shown.next
                == "Wait for task creation"@
            &&& shown.current_summary == "Waiting for ASP acceptance"@
                <==> (s.phase == LifecyclePhase::WaitingForAsp)
            &&& shown.current_summary == "Waiting for ASP acceptance"@
                ==> shown.handled_by == "ASP"@ && shown.next
                == "Wait for the ASP to accept"@
            &&& shown.current_summary == "ASP executing"@
                <==> (s.phase == LifecyclePhase::AspExecuting)
            &&& shown.current_summary == "ASP executing"@ ==> shown.handled_by == "ASP"@
                && shown.next
                == "Wait for the ASP to submit"@
            &&& shown.current_summary == "Waiting for task completion"@
                <==> (s.phase == LifecyclePhase::WaitingForUserReview) && expired
            &&& shown.current_summary == "Waiting for task completion"@
                ==> shown.handled_by == "ASP"@ && shown.next
                == "Wait for the final result"@
            &&& shown.current_summary == "Waiting for you to review the deliverable"@
                <==> (s.phase == LifecyclePhase::WaitingForUserReview) && !expired
                && s.deliverable_available
            &&& shown.current_summary == "Waiting for you to review the deliverable"@
                ==> shown.handled_by == "You"@ && shown.next
                == "Accept or reject the deliverable"@
            &&& shown.current_summary == "Waiting for the deliverable"@
                <==> (s.phase == LifecyclePhase::WaitingForUserReview) && !expired
                && !s.deliverable_available
            &&& shown.current_summary == "Waiting for the deliverable"@
                ==> shown.handled_by == "ASP"@ && shown.next
                == "Wait for the deliverable to arrive"@
            &&& shown.current_summary == "Platform review completed"@
                <==> (s.phase == LifecyclePhase::Rejected || s.phase == LifecyclePhase::Disputed)
                && resolved
            &&& shown.current_summary == "Platform review completed"@
                ==> shown.handled_by == "Platform"@ && shown.next
                == "Wait for the final task result"@
            &&& shown.current_summary == "Platform review in progress"@
                <==> (s.phase == LifecyclePhase::Disputed) && !resolved
            &&& shown.current_summary == "Platform review in progress"@
                ==> shown.handled_by == "Platform"@ && shown.next
                == "Wait for the result"@
            &&& shown.current_summary == "Waiting for the next response"@
                <==> (s.phase == LifecyclePhase::Rejected) && !resolved
            &&& shown.current_summary == "Waiting for the next response"@
                ==> shown.handled_by == "ASP"@ && shown.next
                == "Wait for the result"@
            &&& shown.current_summary == "Task completed"@
                <==> (s.phase == LifecyclePhase::Completed)
            &&& shown.current_summary == "Task completed"@
                ==> shown.handled_by == "No action needed"@ && shown.next
                == "No further action"@
            &&& shown.current_summary == "Refund completed"@
                <==> (s.phase == LifecyclePhase::Refunded || s.phase == LifecyclePhase::Failed)
            &&& shown.current_summary == "Refund completed"@
                ==> shown.handled_by == "No action needed"@ && shown.next
                == "No further action"@
            &&& shown.current_summary == "Task expired"@ <==> (s.phase == LifecyclePhase::Expired)
            &&& shown.current_summary == "Task expired"@
                ==> shown.handled_by == "No action needed"@ && shown.next
                == "No further action"@
            &&& shown.current_summary == "Task closed"@ <==> (s.phase == LifecyclePhase::Closed)
            &&& shown.current_summary == "Task closed"@ ==> shown.handled_by == "No action needed"@
                && shown.next
                == "No further action"@
            &&& shown.current_summary == "Task status unavailable"@
                <==> (s.phase == LifecyclePhase::FreeTrial
                || s.phase == LifecyclePhase::ActiveSubscription
                || s.phase == LifecyclePhase::RenewalGracePeriod
                || s.phase == LifecyclePhase::AwaitingAspDecision
                || s.phase == LifecyclePhase::Unknown)
            &&& shown.current_summary == "Task status unavailable"@
                ==> shown.handled_by == "Unknown"@ && shown.next
                == "Try again later"@
        }),
{
    reveal_strlit("Creating task");
    reveal_strlit("Waiting for ASP acceptance");
    reveal_strlit("ASP executing");
    reveal_strlit("Waiting for task completion");
    reveal_strlit("Waiting for you to review the deliverable");
    reveal_strlit("Waiting for the deliverable");
    reveal_strlit("Platform review completed");
    reveal_strlit("Platform review in progress");
    reveal_strlit("Waiting for the next response");
    reveal_strlit("Task completed");
    reveal_strlit("Refund completed");
    reveal_strlit("Task expired");
    reveal_strlit("Task closed");
    reveal_strlit("Task status unavailable");
    assert("Creating task"@.len() == 13);
    assert("Waiting for ASP acceptance"@.len() == 26);
    assert("ASP executing"@.len() == 13);
    assert("Waiting for task completion"@.len() == 27);
    assert("Waiting for you to review the deliverable"@.len() == 41);
    assert("Waiting for the deliverable"@.len() == 27);
    assert("Platform review completed"@.len() == 25);
    assert("Platform review in progress"@.len() == 27);
    assert("Waiting for the next response"@.len() == 29);
    assert("Task completed"@.len() == 14);
    assert("Refund completed"@.len() == 16);
    assert("Task expired"@.len() == 12);
    assert("Task closed"@.len() == 11);
    assert("Task status unavailable"@.len() == 23);
    assert("Creating task"@[0] != "ASP executing"@[0]);
    assert("Waiting for task completion"@[13] != "Waiting for the deliverable"@[13]);
    assert("Waiting for task completion"@[0] != "Platform review in progress"@[0]);
    assert("Waiting for the deliverable"@[0] != "Platform review in progress"@[0]);
}

/// How many of the five stages count as reached.
pub proof fn steps_belong_to_their_phases(s: SceneView, notice: Option<Seq<char>>)
    ensures
        ({
            let step = display::display_of(s, notice).progress_step;
            &&& step == 1 <==> (s.phase == LifecyclePhase::Initializing
                || s.phase == LifecyclePhase::FreeTrial
                || s.phase == LifecyclePhase::ActiveSubscription
                || s.phase == LifecyclePhase::RenewalGracePeriod
                || s.phase == LifecyclePhase::AwaitingAspDecision
                || s.phase == LifecyclePhase::Unknown)
            &&& step == 5 <==> s.phase == LifecyclePhase::Completed
            &&& s.phase == LifecyclePhase::WaitingForAsp ==> step == 2
            &&& s.phase == LifecyclePhase::AspExecuting ==> step == 3
            &&& (s.phase == LifecyclePhase::WaitingForUserReview
                || s.phase == LifecyclePhase::Rejected || s.phase == LifecyclePhase::Disputed)
                ==> step == 4
            &&& (s.phase == LifecyclePhase::Refunded || s.phase == LifecyclePhase::Failed)
                ==> (step == 4 <==> rejection_known(s)
                || s.milestones.submitted_at is Some)
            &&& (s.phase == LifecyclePhase::Expired || s.phase == LifecyclePhase::Closed)
                ==> (step == 4 <==> s.milestones.submitted_at is Some)
            &&& (s.phase == LifecyclePhase::Refunded || s.phase == LifecyclePhase::Failed)
                && step != 4 ==> (step == 3 <==> s.milestones.accepted_at is Some)
            &&& (s.phase == LifecyclePhase::Expired || s.phase == LifecyclePhase::Closed)
                && step != 4 ==> (step == 3 <==> beginning_known(s))
            &&& 1 <= step <= 5
        }),
{
    assert(display::was_rejected(s) == rejection_known(s));
}

/// What is said beside the five stages, and in which phase.
pub proof fn follow_ups_belong_to_their_phases(s: SceneView, notice: Option<Seq<char>>)
    ensures
        ({
            let beside = display::display_of(s, notice).follow_up;
            let t = s.times.milestones;
            let resolved = s.milestones.dispute_resolved_at is Some;
            let review = display::span(
                if s.milestones.disputed_at is Some {
                    t.disputed_at
                } else {
                    t.dispute_requested_at
                },
                t.dispute_resolved_at,
            );
            &&& (s.phase == LifecyclePhase::Initializing
                || s.phase == LifecyclePhase::WaitingForAsp
                || s.phase == LifecyclePhase::AspExecuting
                || s.phase == LifecyclePhase::WaitingForUserReview
                || s.phase == LifecyclePhase::FreeTrial
                || s.phase == LifecyclePhase::ActiveSubscription
                || s.phase == LifecyclePhase::RenewalGracePeriod
                || s.phase == LifecyclePhase::AwaitingAspDecision
                || s.phase == LifecyclePhase::Unknown) ==> beside.len() == 0
            &&& (s.phase == LifecyclePhase::Rejected || s.phase == LifecyclePhase::Disputed
                || s.phase == LifecyclePhase::Expired || s.phase == LifecyclePhase::Closed)
                ==> beside.len() == 1
            &&& (s.phase == LifecyclePhase::Rejected || s.phase == LifecyclePhase::Disputed)
                && resolved ==> beside[0].title
                == "Platform review completed"@ && beside[0].detail == Some(review)
            &&& s.phase == LifecyclePhase::Disputed && !resolved ==> beside[0].title
                == "Platform review in progress"@ && beside[0].detail == Some(
                display::begun(t.disputed_at),
            )
            &&& s.phase == LifecyclePhase::Rejected && !resolved ==> ({
                let requested = s.milestones.dispute_requested_at is Some;
                let ran_out = s.milestones.reject_expired_at is Some;
                &&& requested ==> beside[0].title == "Waiting for platform review"@
                    && beside[0].detail == Some(
                    match t.dispute_requested_at {
                        Some(time) => time + " requested"@,
                        None => "Request time unavailable"@,
                    },
                )
                &&& !requested && ran_out ==> beside[0].title == "Waiting for refund"@
                    && beside[0].detail == Some(display::time_or_none(t.reject_expired_at))
                &&& !requested && !ran_out ==> beside[0].title == "Waiting for ASP response"@
                    && beside[0].detail == Some(display::begun(t.rejected_at))
            })
            &&& s.phase == LifecyclePhase::Completed && !resolved ==> beside.len() == 0
            &&& s.phase == LifecyclePhase::Completed && resolved ==> beside.len() == 1
                && beside[0].title == "Platform review completed"@ && beside[0].detail == Some(
                review + "; result supports the ASP"@,
            )
            &&& (s.phase == LifecyclePhase::Refunded || s.phase == LifecyclePhase::Failed)
                && resolved ==> beside.len() == 2 && beside[0].title
                == "Platform review completed"@ && beside[0].detail == Some(
                review + "; result supports you"@,
            )
            &&& (s.phase == LifecyclePhase::Refunded || s.phase == LifecyclePhase::Failed)
                && !resolved ==> beside.len() == 1
            &&& (s.phase == LifecyclePhase::Refunded || s.phase == LifecyclePhase::Failed)
                ==> beside.last().title == "Refund completed"@
            &&& s.phase == LifecyclePhase::Expired ==> beside[0].title == "Task expired"@
                && beside[0].detail == t.expired_at
            &&& s.phase == LifecyclePhase::Closed ==> beside[0].title == "Task closed"@
                && beside[0].detail == t.closed_at
        }),
{
}

/// The sign and the key of what is said beside the stages: what is still awaited is
/// marked as active, and what is done as done.
pub proof fn follow_ups_are_marked(s: SceneView, notice: Option<Seq<char>>, i: int)
    requires
        0 <= i < display::display_of(s, notice).follow_up.len(),
    ensures
        ({
            let node = display::display_of(s, notice).follow_up[i];
            let resolved = s.milestones.dispute_resolved_at is Some;
            let awaited = (s.phase == LifecyclePhase::Rejected || s.phase
                == LifecyclePhase::Disputed) && !resolved;
            &&& awaited ==> node.marker == "▶"@
            &&& !awaited ==> node.marker == "✓"@
            &&& node.title == "Platform review completed"@ || node.title
                == "Platform review in progress"@ || node.title == "Waiting for platform review"@
                ==> node.key == "platform_review"@
            &&& node.title == "Waiting for refund"@ ==> node.key == "refund_pending"@
            &&& node.title == "Waiting for ASP response"@ ==> node.key == "asp_response"@
            &&& node.title == "Refund completed"@ ==> node.key == "refund"@
            &&& node.title == "Task expired"@ ==> node.key == "expired"@
            &&& node.title == "Task closed"@ ==> node.key == "closed"@
        }),
{
    reveal_strlit("Platform review completed");
    reveal_strlit("Platform review in progress");
    reveal_strlit("Waiting for platform review");
    reveal_strlit("Waiting for refund");
    reveal_strlit("Waiting for ASP response");
    reveal_strlit("Refund completed");
    reveal_strlit("Task expired");
    reveal_strlit("Task closed");
    assert("Platform review completed"@.len() == 25);
    assert("Platform review in progress"@.len() == 27);
    assert("Waiting for platform review"@.len() == 27);
    assert("Waiting for refund"@.len() == 18);
    assert("Waiting for ASP response"@.len() == 24);
    assert("Refund completed"@.len() == 16);
    assert("Task expired"@.len() == 12);
    assert("Task closed"@.len() == 11);
    assert("Platform review in progress"@[0] != "Waiting for platform review"@[0]);
}

/// A refund says when it came and what was returned, as far as each is known.
pub proof fn refunds_say_when_and_what(s: SceneView, time: Seq<char>, amount: Seq<char>, symbol: Seq<char>)
    requires
        amount.len() > 0,
    ensures
        ({
            let said = display::refund_stage(s).detail;
            let when = if s.milestones.refunded_at is Some {
                s.times.milestones.refunded_at
            } else {
                s.times.milestones.failed_at
            };
            let bare = s.token_symbol is None || s.token_symbol == Some(Seq::<char>::empty());
            &&& when == Some(time) && s.token_amount == Some(amount) && s.token_symbol == Some(
                symbol,
            ) && symbol.len() > 0 ==> said == Some(
                time + "; "@ + (amount + " "@ + symbol + " returned"@),
            )
            &&& when is None && s.token_amount == Some(amount) && bare ==> said == Some(
                amount + " returned"@,
            )
            &&& when == Some(time) && s.token_amount is None ==> said == Some(time)
        }),
{
}

/// Before its creation is confirmed, a task is shown as being created, and no more
/// is claimed of it.
pub proof fn submitted_creations_are_not_confirmed()
    ensures
        ({
            let shown = display::initial_display();
            &&& shown.timeline.len() == 5
            &&& shown.timeline[0].marker == "▶"@
            &&& shown.timeline[0].title == "Creating task"@
            &&& shown.timeline[0].detail == Some(
                "Creation submitted; waiting for task confirmation"@,
            )
            &&& forall|i: int|
                1 <= i < 5 ==> (#[trigger] shown.timeline[i]).marker == "○"@
            &&& shown.progress_step == 1
            &&& shown.progress_total == 5
            &&& shown.current_summary == "Creating task"@
            &&& shown.handled_by == "Platform"@
            &&& shown.next == "Wait for task creation"@
            &&& shown.follow_up.len() == 0
            &&& !shown.review_ready && !shown.deliverable_available
        }),
{
}

} // verus!
