//! Phases of a task, and what each means for those involved.

use vstd::prelude::*;

use crate::status::{Status, StatusView};

verus! {

/// The phase of a task or subscription.
#[derive(Debug, Clone, Copy, PartialEq, Eq, Structural)]
pub enum LifecyclePhase {
    Initializing,
    WaitingForAsp,
    FreeTrial,
    ActiveSubscription,
    RenewalGracePeriod,
    AwaitingAspDecision,
    AspExecuting,
    WaitingForUserReview,
    Rejected,
    Disputed,
    Completed,
    Closed,
    Expired,
    Refunded,
    Failed,
    Unknown,
}

/// How far a snapshot is to be relied on.
#[derive(Debug, Clone, Copy, PartialEq, Eq, Structural)]
pub enum LifecycleConfidence {
    Confirmed,
    Partial,
    Conflict,
    Unknown,
}

/// The phase of a one-time task with a status.
pub open spec fn phase_of(status: StatusView) -> LifecyclePhase {
    match status {
        StatusView::Init => LifecyclePhase::Initializing,
        StatusView::Created => LifecyclePhase::WaitingForAsp,
        StatusView::Accepted => LifecyclePhase::AspExecuting,
        StatusView::Submitted => LifecyclePhase::WaitingForUserReview,
        StatusView::Rejected => LifecyclePhase::Rejected,
        StatusView::Disputed => LifecyclePhase::Disputed,
        StatusView::Completed => LifecyclePhase::Completed,
        StatusView::Close => LifecyclePhase::Closed,
        StatusView::AdminStopped => LifecyclePhase::Closed,
        StatusView::Expired => LifecyclePhase::Expired,
        StatusView::Failed => LifecyclePhase::Refunded,
        StatusView::Other(_) => LifecyclePhase::Unknown,
    }
}

/// The phase of a one-time task with a status.
pub fn phase_from_status(status: &Status) -> (r: LifecyclePhase)
    ensures
        r == phase_of(status@),
{
    match status {
        Status::Init => LifecyclePhase::Initializing,
        Status::Created => LifecyclePhase::WaitingForAsp,
        Status::Accepted => LifecyclePhase::AspExecuting,
        Status::Submitted => LifecyclePhase::WaitingForUserReview,
        Status::Rejected => LifecyclePhase::Rejected,
        Status::Disputed => LifecyclePhase::Disputed,
        Status::Completed => LifecyclePhase::Completed,
        Status::Close => LifecyclePhase::Closed,
        Status::AdminStopped => LifecyclePhase::Closed,
        Status::Expired => LifecyclePhase::Expired,
        Status::Failed => LifecyclePhase::Refunded,
        Status::Other(_) => LifecyclePhase::Unknown,
    }
}

/// The label of a one-time task with a status.
pub open spec fn label_of(status: StatusView) -> Seq<char> {
    match status {
        StatusView::Init => "Task initializing"@,
        StatusView::Created => "Waiting for ASP acceptance"@,
        StatusView::Accepted => "ASP executing"@,
        StatusView::Submitted => "Waiting for user review"@,
        StatusView::Rejected => "Deliverable rejected"@,
        StatusView::Disputed => "Platform review in progress"@,
        StatusView::AdminStopped => "Stopped by platform"@,
        StatusView::Completed => "Task completed"@,
        StatusView::Close => "Task closed"@,
        StatusView::Expired => "Task expired"@,
        StatusView::Failed => "Refund completed"@,
        StatusView::Other(_) => "Status unavailable"@,
    }
}

/// The label of a one-time task with a status.
pub fn status_label(status: &Status) -> (r: &'static str)
    ensures
        r@ == label_of(status@),
{
    match status {
        Status::Init => "Task initializing",
        Status::Created => "Waiting for ASP acceptance",
        Status::Accepted => "ASP executing",
        Status::Submitted => "Waiting for user review",
        Status::Rejected => "Deliverable rejected",
        Status::Disputed => "Platform review in progress",
        Status::AdminStopped => "Stopped by platform",
        Status::Completed => "Task completed",
        Status::Close => "Task closed",
        Status::Expired => "Task expired",
        Status::Failed => "Refund completed",
        Status::Other(_) => "Status unavailable",
    }
}

/// A phase that a task does not leave.
pub open spec fn is_final_phase(phase: LifecyclePhase) -> bool {
    match phase {
        LifecyclePhase::Completed => true,
        LifecyclePhase::Closed => true,
        LifecyclePhase::Expired => true,
        LifecyclePhase::Refunded => true,
        LifecyclePhase::Failed => true,
        _ => false,
    }
}

/// Who has to act in a phase.
pub open spec fn party_of(phase: LifecyclePhase) -> Seq<char> {
    match phase {
        LifecyclePhase::WaitingForAsp => "asp"@,
        LifecyclePhase::AspExecuting => "asp"@,
        LifecyclePhase::FreeTrial => "asp"@,
        LifecyclePhase::ActiveSubscription => "asp"@,
        LifecyclePhase::AwaitingAspDecision => "asp"@,
        LifecyclePhase::RenewalGracePeriod => "user"@,
        LifecyclePhase::WaitingForUserReview => "user"@,
        LifecyclePhase::Rejected => "user"@,
        LifecyclePhase::Initializing => "official"@,
        LifecyclePhase::Disputed => "official"@,
        LifecyclePhase::Unknown => "official"@,
        _ => "none"@,
    }
}

/// Who has to act in a phase.
pub fn responsible_party(phase: LifecyclePhase) -> (r: &'static str)
    ensures
        r@ == party_of(phase),
        is_final_phase(phase) ==> r@ == "none"@,
{
    match phase {
        LifecyclePhase::WaitingForAsp => "asp",
        LifecyclePhase::AspExecuting => "asp",
        LifecyclePhase::FreeTrial => "asp",
        LifecyclePhase::ActiveSubscription => "asp",
        LifecyclePhase::AwaitingAspDecision => "asp",
        LifecyclePhase::RenewalGracePeriod => "user",
        LifecyclePhase::WaitingForUserReview => "user",
        LifecyclePhase::Rejected => "user",
        LifecyclePhase::Initializing => "official",
        LifecyclePhase::Disputed => "official",
        LifecyclePhase::Unknown => "official",
        _ => "none",
    }
}

/// What is to be done next in a phase.
pub open spec fn action_of(phase: LifecyclePhase) -> Seq<char> {
    match phase {
        LifecyclePhase::Initializing => "Wait for task initialization"@,
        LifecyclePhase::WaitingForAsp => "Wait for the ASP to accept the task"@,
        LifecyclePhase::AspExecuting => "Wait for the ASP to submit the deliverable"@,
        LifecyclePhase::FreeTrial => "Use the service or cancel before the trial ends"@,
        LifecyclePhase::ActiveSubscription => "Continue using the subscription service"@,
        LifecyclePhase::RenewalGracePeriod => "Fund the wallet before the grace period ends"@,
        LifecyclePhase::AwaitingAspDecision => "Wait for the ASP refund decision"@,
        LifecyclePhase::WaitingForUserReview => "Review the ASP deliverable"@,
        LifecyclePhase::Rejected => "Wait for the ASP response or platform review"@,
        LifecyclePhase::Disputed => "Wait for the platform review result"@,
        LifecyclePhase::Unknown => "Try the task query again later"@,
        _ => "No further task action"@,
    }
}

/// What is to be done next in a phase.
pub fn next_action(phase: LifecyclePhase) -> (r: &'static str)
    ensures
        r@ == action_of(phase),
        is_final_phase(phase) ==> r@ == "No further task action"@,
{
    match phase {
        LifecyclePhase::Initializing => "Wait for task initialization",
        LifecyclePhase::WaitingForAsp => "Wait for the ASP to accept the task",
        LifecyclePhase::AspExecuting => "Wait for the ASP to submit the deliverable",
        LifecyclePhase::FreeTrial => "Use the service or cancel before the trial ends",
        LifecyclePhase::ActiveSubscription => "Continue using the subscription service",
        LifecyclePhase::RenewalGracePeriod => "Fund the wallet before the grace period ends",
        LifecyclePhase::AwaitingAspDecision => "Wait for the ASP refund decision",
        LifecyclePhase::WaitingForUserReview => "Review the ASP deliverable",
        LifecyclePhase::Rejected => "Wait for the ASP response or platform review",
        LifecyclePhase::Disputed => "Wait for the platform review result",
        LifecyclePhase::Unknown => "Try the task query again later",
        _ => "No further task action",
    }
}

/// A status is terminal just where its phase is final.
pub proof fn terminal_statuses_have_final_phases(status: StatusView)
    ensures
        crate::status::status_is_terminal(status) <==> is_final_phase(phase_of(status)),
{
}

} // verus!
