//! What holds of every display of a one-time task.

use vstd::prelude::*;

use crate::deadline;
use crate::display;
use crate::display::SceneView;
use crate::phase::LifecyclePhase;

verus! {

/// A text without a line break.
pub open spec fn is_one_line(s: Seq<char>) -> bool {
    forall|i: int| 0 <= i < s.len() ==> #[trigger] s[i] != '\n'
}

/// The display always has five stages, in a fixed order, each with a text.
pub proof fn timeline_has_five_stages(s: SceneView, notice: Option<Seq<char>>)
    ensures
        display::display_of(s, notice).timeline.len() == 5,
        display::display_of(s, notice).timeline[0].key == "created"@,
        display::display_of(s, notice).timeline[1].key == "accepted"@,
        display::display_of(s, notice).timeline[2].key == "asp_execution"@,
        display::display_of(s, notice).timeline[3].key == "user_review"@,
        display::display_of(s, notice).timeline[4].key == "completed"@,
        forall|i: int|
            0 <= i < 5 ==> (#[trigger] display::display_of(s, notice).timeline[i]).detail is Some,
        1 <= display::display_of(s, notice).progress_step <= 5,
        display::display_of(s, notice).progress_total == 5,
{
}

proof fn lemma_joined_lines(a: Seq<char>, b: Seq<char>)
    requires
        is_one_line(a),
        is_one_line(b),
    ensures
        is_one_line(a + b),
{
}

proof fn lemma_time_is_one_line(time: Option<Seq<char>>, value: Option<Seq<char>>)
    requires
        deadline::is_time_of(time, value),
    ensures
        time matches Some(t) ==> is_one_line(t),
{
    if time is Some {
        assert forall|i: int| 0 <= i < time->0.len() implies #[trigger] time->0[i] != '\n' by {
            assert(deadline::is_time_char(time->0[i]));
        }
    }
}

spec fn is_short(time: Option<Seq<char>>) -> bool {
    time matches Some(t) ==> is_one_line(t)
}

proof fn lemma_time_words(time: Option<Seq<char>>)
    requires
        is_short(time),
    ensures
        is_one_line(display::time_or_none(time)),
        is_one_line(display::begun(time)),
{
    reveal_strlit("Time unavailable");
    reveal_strlit("Start time unavailable");
    reveal_strlit(" started");
    if time is Some {
        lemma_joined_lines(time->0, " started"@);
    }
}

proof fn lemma_span(start: Option<Seq<char>>, end: Option<Seq<char>>)
    requires
        is_short(start),
        is_short(end),
    ensures
        is_one_line(display::span(start, end)),
{
    reveal_strlit(" - ");
    reveal_strlit(" started; end time unavailable");
    reveal_strlit("Completed at ");
    reveal_strlit("; start time unavailable");
    reveal_strlit("Time unavailable");
    match (start, end) {
        (Some(s), Some(e)) => {
            lemma_joined_lines(s, " - "@);
            lemma_joined_lines(s + " - "@, e);
        },
        (Some(s), None) => {
            lemma_joined_lines(s, " started; end time unavailable"@);
        },
        (None, Some(e)) => {
            lemma_joined_lines("Completed at "@, e);
            lemma_joined_lines("Completed at "@ + e, "; start time unavailable"@);
        },
        (None, None) => {},
    }
}

proof fn lemma_pending(key: Seq<char>, title: Seq<char>)
    ensures
        is_one_line(display::pending(key, title).detail->0),
{
    reveal_strlit("Not completed");
    reveal_strlit("Not started");
}

proof fn lemma_review_detail(s: SceneView)
    requires
        is_short(s.times.milestones.submitted_at),
        is_short(s.times.milestones.review_expired_at),
        is_short(s.times.review_deadline),
    ensures
        is_one_line(display::review_detail(s)),
{
    reveal_strlit(" started; waiting for the deliverable");
    reveal_strlit("Waiting for the deliverable");
    reveal_strlit(" started; accept or reject by ");
    reveal_strlit(" started; accept or reject; deadline unavailable");
    reveal_strlit("Accept or reject by ");
    reveal_strlit("Accept or reject the deliverable; timing unavailable");
    lemma_time_words(s.times.milestones.review_expired_at);
    match (s.times.milestones.submitted_at, s.times.review_deadline) {
        (Some(t), Some(end)) => {
            lemma_joined_lines(t, " started; waiting for the deliverable"@);
            lemma_joined_lines(t, " started; accept or reject by "@);
            lemma_joined_lines(t + " started; accept or reject by "@, end);
        },
        (Some(t), None) => {
            lemma_joined_lines(t, " started; waiting for the deliverable"@);
            lemma_joined_lines(t, " started; accept or reject; deadline unavailable"@);
        },
        (None, Some(end)) => {
            lemma_joined_lines("Accept or reject by "@, end);
        },
        (None, None) => {},
    }
}

proof fn lemma_short_times(s: SceneView, review_deadline: Option<Seq<char>>)
    requires
        display::are_times_of(s.times, s.milestones, review_deadline),
    ensures
        is_short(s.times.milestones.created_at),
        is_short(s.times.milestones.accepted_at),
        is_short(s.times.milestones.submitted_at),
        is_short(s.times.milestones.completed_at),
        is_short(s.times.milestones.rejected_at),
        is_short(s.times.milestones.review_expired_at),
        is_short(s.times.milestones.closed_at),
        is_short(s.times.milestones.expired_at),
        is_short(s.times.milestones.refunded_at),
        is_short(s.times.milestones.failed_at),
        is_short(s.times.review_deadline),
{
    let t = s.times.milestones;
    let m = s.milestones;
    lemma_time_is_one_line(t.created_at, m.created_at);
    lemma_time_is_one_line(t.accepted_at, m.accepted_at);
    lemma_time_is_one_line(t.submitted_at, m.submitted_at);
    lemma_time_is_one_line(t.completed_at, m.completed_at);
    lemma_time_is_one_line(t.rejected_at, m.rejected_at);
    lemma_time_is_one_line(t.review_expired_at, m.review_expired_at);
    lemma_time_is_one_line(t.closed_at, m.closed_at);
    lemma_time_is_one_line(t.expired_at, m.expired_at);
    lemma_time_is_one_line(t.refunded_at, m.refunded_at);
    lemma_time_is_one_line(t.failed_at, m.failed_at);
    lemma_time_is_one_line(s.times.review_deadline, review_deadline);
}

/// The text of each of the five stages is one line, whatever the task details
/// and the history say.
pub proof fn stage_details_are_one_line(
    s: SceneView,
    review_deadline: Option<Seq<char>>,
    notice: Option<Seq<char>>,
    i: int,
)
    requires
        display::are_times_of(s.times, s.milestones, review_deadline),
        0 <= i < 5,
    ensures
        display::display_of(s, notice).timeline[i].detail is Some,
        is_one_line(display::display_of(s, notice).timeline[i].detail->0),
{
    lemma_short_times(s, review_deadline);
    let t = s.times.milestones;
    lemma_pending("created"@, "Task creation"@);
    lemma_pending("accepted"@, "ASP acceptance"@);
    lemma_pending("asp_execution"@, "ASP execution"@);
    lemma_pending("user_review"@, "Deliverable review"@);
    lemma_pending("completed"@, "Task completion"@);
    lemma_time_words(t.created_at);
    lemma_time_words(t.accepted_at);
    lemma_time_words(t.completed_at);
    lemma_time_words(t.rejected_at);
    lemma_time_words(t.closed_at);
    lemma_time_words(t.expired_at);
    lemma_span(t.accepted_at, t.submitted_at);
    lemma_span(t.submitted_at, t.completed_at);
    lemma_span(t.accepted_at, display::refund_time(s));
    lemma_review_detail(s);
    assert(is_one_line("Start time unavailable"@)) by {
        reveal_strlit("Start time unavailable");
    }
    assert(is_one_line("Deliverable received; waiting for the task status update"@)) by {
        reveal_strlit("Deliverable received; waiting for the task status update");
    }
    assert(is_one_line("The task ended before deliverable review"@)) by {
        reveal_strlit("The task ended before deliverable review");
    }
    assert(is_one_line("Ended before normal completion"@)) by {
        reveal_strlit("Ended before normal completion");
    }
    assert(is_one_line(display::creation_stage(s).detail->0));
    assert(is_one_line(display::acceptance_stage(s).detail->0));
    assert(is_one_line(display::execution_stage(s).detail->0));
    assert(is_one_line(display::review_stage(s).detail->0));
    assert(is_one_line(display::completion_stage(s).detail->0));
}

/// A task is the user's to handle just where the review is ready: the status has
/// reached the review, its time has not run out, and the deliverable is there.
pub proof fn user_handles_ready_reviews_only(s: SceneView, notice: Option<Seq<char>>)
    ensures
        display::display_of(s, notice).handled_by == "You"@ <==> display::display_of(
            s,
            notice,
        ).review_ready,
        display::display_of(s, notice).review_ready <==> s.phase
            == LifecyclePhase::WaitingForUserReview && s.deliverable_available
            && s.milestones.review_expired_at is None,
        display::display_of(s, notice).next == "Accept or reject the deliverable"@
            <==> display::display_of(s, notice).review_ready,
{
    reveal_strlit("You");
    reveal_strlit("ASP");
    reveal_strlit("Platform");
    reveal_strlit("Unknown");
    reveal_strlit("No action needed");
    assert("You"@[0] != "ASP"@[0]);
    assert("You"@.len() != "Platform"@.len());
    assert("You"@.len() != "Unknown"@.len());
    assert("You"@.len() != "No action needed"@.len());
    reveal_strlit("Accept or reject the deliverable");
    reveal_strlit("Wait for task creation");
    reveal_strlit("Wait for the ASP to accept");
    reveal_strlit("Wait for the ASP to submit");
    reveal_strlit("Wait for the final result");
    reveal_strlit("Wait for the deliverable to arrive");
    reveal_strlit("Wait for the final task result");
    reveal_strlit("Wait for the result");
    reveal_strlit("No further action");
    reveal_strlit("Try again later");
    let accept = "Accept or reject the deliverable"@[0];
    assert(accept == 'A');
    assert("Wait for task creation"@[0] != accept);
    assert("Wait for the ASP to accept"@[0] != accept);
    assert("Wait for the ASP to submit"@[0] != accept);
    assert("Wait for the final result"@[0] != accept);
    assert("Wait for the deliverable to arrive"@[0] != accept);
    assert("Wait for the final task result"@[0] != accept);
    assert("Wait for the result"@[0] != accept);
    assert("No further action"@[0] != accept);
    assert("Try again later"@[0] != accept);
}

/// A follow-up says that a refund is completed only where the phase does.
pub proof fn refunds_are_not_claimed_early(s: SceneView, i: int)
    requires
        0 <= i < display::follow_up_of(s).len(),
    ensures
        display::follow_up_of(s)[i].title == "Refund completed"@ ==> s.phase
            == LifecyclePhase::Refunded || s.phase == LifecyclePhase::Failed,
        s.phase == LifecyclePhase::Refunded || s.phase == LifecyclePhase::Failed
            ==> display::follow_up_of(s).last() == display::refund_stage(s),
{
    reveal_strlit("Refund completed");
    reveal_strlit("Platform review completed");
    reveal_strlit("Platform review in progress");
    reveal_strlit("Waiting for platform review");
    reveal_strlit("Waiting for refund");
    reveal_strlit("Waiting for ASP response");
    reveal_strlit("Task expired");
    reveal_strlit("Task closed");
    assert("Refund completed"@[0] == 'R');
    assert("Platform review completed"@[0] == 'P');
    assert("Platform review in progress"@[0] == 'P');
    assert("Waiting for platform review"@[0] == 'W');
    assert("Waiting for refund"@[0] == 'W');
    assert("Waiting for ASP response"@[0] == 'W');
    assert("Task expired"@[0] == 'T');
    assert("Task closed"@[0] == 'T');
}

/// A follow-up says that the platform review is completed only where the
/// dispute has been resolved.
pub proof fn reviews_are_completed_when_resolved(s: SceneView, i: int)
    requires
        0 <= i < display::follow_up_of(s).len(),
    ensures
        display::follow_up_of(s)[i].title == "Platform review completed"@
            ==> s.milestones.dispute_resolved_at is Some,
{
    reveal_strlit("Platform review completed");
    reveal_strlit("Platform review in progress");
    reveal_strlit("Waiting for platform review");
    reveal_strlit("Waiting for refund");
    reveal_strlit("Waiting for ASP response");
    reveal_strlit("Refund completed");
    reveal_strlit("Task expired");
    reveal_strlit("Task closed");
    assert("Platform review completed"@.len() == 25);
    assert("Platform review in progress"@.len() == 27);
    assert("Waiting for platform review"@.len() == 27);
    assert("Waiting for refund"@.len() == 18);
    assert("Waiting for ASP response"@.len() == 24);
    assert("Refund completed"@.len() == 16);
    assert("Task expired"@.len() == 12);
    assert("Task closed"@.len() == 11);
}

/// A refund without a known time and amount has no text of its own.
pub proof fn unknown_refund_has_no_detail(s: SceneView, review_deadline: Option<Seq<char>>)
    requires
        display::are_times_of(s.times, s.milestones, review_deadline),
        s.milestones.refunded_at is None,
        s.milestones.failed_at is None,
        s.token_amount is None,
    ensures
        display::refund_stage(s).detail is None,
{
}

/// Stages that a refunded task never reached stay pending.
pub proof fn early_refund_keeps_stages_pending(s: SceneView)
    requires
        s.phase == LifecyclePhase::Refunded || s.phase == LifecyclePhase::Failed,
        s.milestones.accepted_at is None,
        s.milestones.submitted_at is None,
        !display::was_rejected(s),
    ensures
        display::timeline_of(s)[1] == display::pending("accepted"@, "ASP acceptance"@),
        display::timeline_of(s)[2] == display::pending("asp_execution"@, "ASP execution"@),
        display::timeline_of(s)[3] == display::pending("user_review"@, "Deliverable review"@),
        display::timeline_of(s)[1].detail == Some("Not started"@),
        display::timeline_of(s)[2].detail == Some("Not started"@),
        display::timeline_of(s)[3].detail == Some("Not started"@),
{
    reveal_strlit("completed");
    reveal_strlit("accepted");
    reveal_strlit("asp_execution");
    reveal_strlit("user_review");
    assert("completed"@.len() == 9);
    assert("accepted"@.len() == 8);
    assert("asp_execution"@.len() == 13);
    assert("user_review"@.len() == 11);
}

/// A submission keeps the execution done, whatever ended the task.
pub proof fn submission_keeps_execution_done(s: SceneView)
    requires
        s.milestones.submitted_at is Some,
        crate::phase::is_final_phase(s.phase),
    ensures
        display::timeline_of(s)[2] == display::executed_stage(s),
{
}

/// A pending last stage is told apart from the other pending stages.
pub proof fn pending_completion_differs(title: Seq<char>, key: Seq<char>, other: Seq<char>)
    requires
        key != "completed"@,
    ensures
        display::pending("completed"@, title).detail == Some("Not completed"@),
        display::pending(key, other).detail == Some("Not started"@),
        display::pending("completed"@, title).detail != display::pending(key, other).detail,
{
    reveal_strlit("Not completed");
    reveal_strlit("Not started");
    assert("Not completed"@.len() == 13);
    assert("Not started"@.len() == 11);
}

} // verus!
