//! What each phase of a one-time task means, and which status has it.

use vstd::prelude::*;

use crate::phase;
use crate::phase::LifecyclePhase;
use crate::status;
use crate::status::StatusView;

verus! {

/// Each phase of a one-time task is that of its own status: a failed task is a
/// refunded one, and one that the platform stopped is closed.
pub proof fn phases_belong_to_their_statuses(current: StatusView)
    ensures
        phase::phase_of(current) == LifecyclePhase::Initializing <==> current == StatusView::Init,
        phase::phase_of(current) == LifecyclePhase::WaitingForAsp
            <==> current == StatusView::Created,
        phase::phase_of(current) == LifecyclePhase::AspExecuting
            <==> current == StatusView::Accepted,
        phase::phase_of(current) == LifecyclePhase::WaitingForUserReview
            <==> current == StatusView::Submitted,
        phase::phase_of(current) == LifecyclePhase::Rejected <==> current == StatusView::Rejected,
        phase::phase_of(current) == LifecyclePhase::Disputed <==> current == StatusView::Disputed,
        phase::phase_of(current) == LifecyclePhase::Completed <==> current == StatusView::Completed,
        phase::phase_of(current) == LifecyclePhase::Closed <==> current == StatusView::Close
            || current == StatusView::AdminStopped,
        phase::phase_of(current) == LifecyclePhase::Expired <==> current == StatusView::Expired,
        phase::phase_of(current) == LifecyclePhase::Refunded <==> current == StatusView::Failed,
        phase::phase_of(current) == LifecyclePhase::Unknown <==> current is Other,
{
}

/// Each label of a one-time task is that of one status and of no other.
pub proof fn labels_belong_to_one_status(current: StatusView)
    ensures
        phase::label_of(current) == "Task initializing"@ <==> current == StatusView::Init,
        phase::label_of(current) == "Waiting for ASP acceptance"@
            <==> current == StatusView::Created,
        phase::label_of(current) == "ASP executing"@ <==> current == StatusView::Accepted,
        phase::label_of(current) == "Waiting for user review"@
            <==> current == StatusView::Submitted,
        phase::label_of(current) == "Deliverable rejected"@ <==> current == StatusView::Rejected,
        phase::label_of(current) == "Platform review in progress"@
            <==> current == StatusView::Disputed,
        phase::label_of(current) == "Stopped by platform"@ <==> current == StatusView::AdminStopped,
        phase::label_of(current) == "Task completed"@ <==> current == StatusView::Completed,
        phase::label_of(current) == "Task closed"@ <==> current == StatusView::Close,
        phase::label_of(current) == "Task expired"@ <==> current == StatusView::Expired,
        phase::label_of(current) == "Refund completed"@ <==> current == StatusView::Failed,
        phase::label_of(current) == "Status unavailable"@ <==> current is Other,
{
    reveal_strlit("Task initializing");
    reveal_strlit("Waiting for ASP acceptance");
    reveal_strlit("ASP executing");
    reveal_strlit("Waiting for user review");
    reveal_strlit("Deliverable rejected");
    reveal_strlit("Platform review in progress");
    reveal_strlit("Stopped by platform");
    reveal_strlit("Task completed");
    reveal_strlit("Task closed");
    reveal_strlit("Task expired");
    reveal_strlit("Refund completed");
    reveal_strlit("Status unavailable");
    assert("Task initializing"@.len() == 17);
    assert("Waiting for ASP acceptance"@.len() == 26);
    assert("ASP executing"@.len() == 13);
    assert("Waiting for user review"@.len() == 23);
    assert("Deliverable rejected"@.len() == 20);
    assert("Platform review in progress"@.len() == 27);
    assert("Stopped by platform"@.len() == 19);
    assert("Task completed"@.len() == 14);
    assert("Task closed"@.len() == 11);
    assert("Task expired"@.len() == 12);
    assert("Refund completed"@.len() == 16);
    assert("Status unavailable"@.len() == 18);
}

/// Who has to act in each phase: nobody just where the task is over.
pub proof fn parties_belong_to_their_phases(current: LifecyclePhase)
    ensures
        phase::party_of(current) == "asp"@ <==> current == LifecyclePhase::WaitingForAsp
            || current == LifecyclePhase::AspExecuting || current == LifecyclePhase::FreeTrial
            || current == LifecyclePhase::ActiveSubscription
            || current == LifecyclePhase::AwaitingAspDecision,
        phase::party_of(current) == "user"@ <==> current == LifecyclePhase::RenewalGracePeriod
            || current == LifecyclePhase::WaitingForUserReview
            || current == LifecyclePhase::Rejected,
        phase::party_of(current) == "official"@ <==> current == LifecyclePhase::Initializing
            || current == LifecyclePhase::Disputed || current == LifecyclePhase::Unknown,
        phase::party_of(current) == "none"@ <==> phase::is_final_phase(current),
{
    reveal_strlit("asp");
    reveal_strlit("user");
    reveal_strlit("official");
    reveal_strlit("none");
    assert("asp"@.len() == 3);
    assert("user"@.len() == 4);
    assert("official"@.len() == 8);
    assert("none"@.len() == 4);
    assert("user"@[0] != "none"@[0]);
}

/// What is to be done in each phase: nothing just where the task is over.
pub proof fn actions_belong_to_their_phases(current: LifecyclePhase)
    ensures
        phase::action_of(current) == "Wait for task initialization"@
            <==> current == LifecyclePhase::Initializing,
        phase::action_of(current) == "Wait for the ASP to accept the task"@
            <==> current == LifecyclePhase::WaitingForAsp,
        phase::action_of(current) == "Wait for the ASP to submit the deliverable"@
            <==> current == LifecyclePhase::AspExecuting,
        phase::action_of(current) == "Use the service or cancel before the trial ends"@
            <==> current == LifecyclePhase::FreeTrial,
        phase::action_of(current) == "Continue using the subscription service"@
            <==> current == LifecyclePhase::ActiveSubscription,
        phase::action_of(current) == "Fund the wallet before the grace period ends"@
            <==> current == LifecyclePhase::RenewalGracePeriod,
        phase::action_of(current) == "Wait for the ASP refund decision"@
            <==> current == LifecyclePhase::AwaitingAspDecision,
        phase::action_of(current) == "Review the ASP deliverable"@
            <==> current == LifecyclePhase::WaitingForUserReview,
        phase::action_of(current) == "Wait for the ASP response or platform review"@
            <==> current == LifecyclePhase::Rejected,
        phase::action_of(current) == "Wait for the platform review result"@
            <==> current == LifecyclePhase::Disputed,
        phase::action_of(current) == "Try the task query again later"@
            <==> current == LifecyclePhase::Unknown,
        phase::action_of(current) == "No further task action"@ <==> phase::is_final_phase(current),
{
    reveal_strlit("Wait for task initialization");
    reveal_strlit("Wait for the ASP to accept the task");
    reveal_strlit("Wait for the ASP to submit the deliverable");
    reveal_strlit("Use the service or cancel before the trial ends");
    reveal_strlit("Continue using the subscription service");
    reveal_strlit("Fund the wallet before the grace period ends");
    reveal_strlit("Wait for the ASP refund decision");
    reveal_strlit("Review the ASP deliverable");
    reveal_strlit("Wait for the ASP response or platform review");
    reveal_strlit("Wait for the platform review result");
    reveal_strlit("Try the task query again later");
    reveal_strlit("No further task action");
    assert("Wait for task initialization"@.len() == 28);
    assert("Wait for the ASP to accept the task"@.len() == 35);
    assert("Wait for the ASP to submit the deliverable"@.len() == 42);
    assert("Use the service or cancel before the trial ends"@.len() == 47);
    assert("Continue using the subscription service"@.len() == 39);
    assert("Fund the wallet before the grace period ends"@.len() == 44);
    assert("Wait for the ASP refund decision"@.len() == 32);
    assert("Review the ASP deliverable"@.len() == 26);
    assert("Wait for the ASP response or platform review"@.len() == 44);
    assert("Wait for the platform review result"@.len() == 35);
    assert("Try the task query again later"@.len() == 30);
    assert("No further task action"@.len() == 22);
    assert("Wait for the ASP to accept the task"@[13] != "Wait for the platform review result"@[13]);
    assert("Fund the wallet before the grace period ends"@[0] != "Wait for the ASP response or platform review"@[0]);
}

/// A task is over once it is completed, closed, expired, refunded or failed.
pub proof fn five_phases_are_final(current: LifecyclePhase)
    ensures
        phase::is_final_phase(current) <==> current == LifecyclePhase::Completed || current
            == LifecyclePhase::Closed || current == LifecyclePhase::Expired || current
            == LifecyclePhase::Refunded || current == LifecyclePhase::Failed,
{
}

/// The label, the party and the action on a status with a known code follow from
/// the code: the user is to review once the deliverable is submitted, the ASP acts
/// before, and nobody acts after the end.
pub proof fn turns_follow_the_code(code: i32)
    ensures
        ({
            let party = phase::party_of(phase::phase_of(status::status_of_code(code)));
            &&& party == "asp"@ <==> code == 0 || code == 1
            &&& party == "user"@ <==> code == 2 || code == 3
            &&& party == "none"@ <==> 5 <= code <= 9
        }),
{
    reveal_strlit("asp");
    reveal_strlit("user");
    reveal_strlit("official");
    reveal_strlit("none");
    assert("asp"@.len() == 3);
    assert("user"@.len() == 4);
    assert("official"@.len() == 8);
    assert("none"@.len() == 4);
    assert("user"@[0] != "none"@[0]);
}

} // verus!
