//! What holds of every subscription.

use vstd::prelude::*;

use crate::events::EventView;
use crate::json;
use crate::json::JsonView;
use crate::phase::{LifecycleConfidence, LifecyclePhase};
use crate::subscription;
use crate::subscription::MomentsView;
use crate::subscription_snapshot;
use crate::subscription_snapshot::CLOSE_PENDING_NOTICE;

verus! {

/// Only the eighteen approved copies are ever selected, and each status selects
/// among those that are meant for it.
pub proof fn templates_are_approved(
    detail: JsonView,
    events: Seq<EventView>,
    user_close_submitted: bool,
    now: i64,
)
    ensures
        ({
            let state = subscription_snapshot::state_of(detail, events, user_close_submitted, now);
            match state.template_number {
                Some(n) => 1 <= n <= 18 && match state.status {
                    Some(-1) => n == 1,
                    Some(0) => n == 2,
                    Some(1) => n == 3 || n == 4 || n == 5 || n == 11,
                    Some(3) => n == 14,
                    Some(4) => n == 16,
                    Some(6) => n == 13 || n == 18,
                    Some(7) => n == 6 || n == 8 || n == 10 || n == 12 || n == 13,
                    Some(8) => n == 7 || n == 8,
                    Some(9) => n == 9 || n == 12 || n == 15 || n == 17,
                    _ => false,
                },
                None => state.phase == LifecyclePhase::Failed || state.phase
                    == LifecyclePhase::Unknown,
            }
        }),
{
}

/// A refund is never proven for a trial, and events cannot prove one: what the
/// detail shows decides.
pub proof fn events_do_not_prove_refunds(
    detail: JsonView,
    events: Seq<EventView>,
    other_events: Seq<EventView>,
    user_close_submitted: bool,
    now: i64,
)
    ensures
        ({
            let one = subscription_snapshot::state_of(detail, events, user_close_submitted, now);
            let other = subscription_snapshot::state_of(
                detail,
                other_events,
                user_close_submitted,
                now,
            );
            &&& one.refund_proven == other.refund_proven
            &&& one.trial_type == Some(1i64) ==> !one.refund_proven
            &&& (one.phase == LifecyclePhase::Refunded) == (other.phase
                == LifecyclePhase::Refunded)
            &&& one.phase == LifecyclePhase::Refunded ==> one.status == Some(9i64)
                && one.refund_proven
        }),
{
}

/// A refund counts as completed, in the copy as in the phase, only where it is
/// proven.
pub proof fn refund_copy_needs_proof(
    detail: JsonView,
    events: Seq<EventView>,
    user_close_submitted: bool,
    now: i64,
)
    ensures
        ({
            let state = subscription_snapshot::state_of(detail, events, user_close_submitted, now);
            let refunded = state.template_number == Some(15u8) || state.template_number == Some(
                17u8,
            );
            refunded <==> state.phase == LifecyclePhase::Refunded
        }),
{
}

/// A closure that the user has submitted leaves nothing to choose, and the
/// platform to act, until the subscription leaves its first status.
pub proof fn pending_closure_offers_no_choice(
    job: Seq<char>,
    detail: JsonView,
    events: Seq<EventView>,
    read: bool,
    now: i64,
    times: MomentsView,
    synced_at: Seq<char>,
)
    requires
        subscription_snapshot::subscription_status_at(detail) == Some(0i64),
    ensures
        ({
            let snapshot = subscription_snapshot::subscription_snapshot_of(
                job,
                detail,
                events,
                read,
                true,
                now,
                times,
                synced_at,
            );
            &&& snapshot.display.choices.len() == 0
            &&& snapshot.display.notice == Some(CLOSE_PENDING_NOTICE@)
            &&& snapshot.status_label == "Subscription closure submitted"@
            &&& snapshot.responsible_party == "platform"@
            &&& snapshot.display.template_id
                == subscription_snapshot::template_name(Some(2u8))
        }),
{
}

/// The display repeats the label, the responsible party and the next action of
/// its snapshot.
pub proof fn display_agrees_with_snapshot(
    job: Seq<char>,
    detail: JsonView,
    events: Seq<EventView>,
    read: bool,
    user_close_submitted: bool,
    now: i64,
    times: MomentsView,
    synced_at: Seq<char>,
)
    ensures
        ({
            let snapshot = subscription_snapshot::subscription_snapshot_of(
                job,
                detail,
                events,
                read,
                user_close_submitted,
                now,
                times,
                synced_at,
            );
            &&& snapshot.display.current_summary == snapshot.status_label
            &&& snapshot.display.handled_by == snapshot.responsible_party
            &&& snapshot.display.next == snapshot.next_action
            &&& snapshot.job_id == job
        }),
{
}

/// The short copy is the label and the summary of the full snapshot that the
/// same detail gives without a history.
pub proof fn short_copy_agrees_with_snapshot(
    job: Seq<char>,
    detail: JsonView,
    read: bool,
    user_close_submitted: bool,
    now: i64,
    times: MomentsView,
    synced_at: Seq<char>,
)
    ensures
        ({
            let snapshot = subscription_snapshot::subscription_snapshot_of(
                job,
                detail,
                Seq::empty(),
                read,
                user_close_submitted,
                now,
                times,
                synced_at,
            );
            let copy = subscription_snapshot::copy_at(detail, user_close_submitted, now);
            snapshot.status_label == copy && snapshot.display.current_summary == copy
        }),
{
}

/// The clock matters only to a subscription that is active, closed or failed.
pub proof fn clock_matters_to_three_statuses(
    detail: JsonView,
    events: Seq<EventView>,
    user_close_submitted: bool,
    now: i64,
    later: i64,
)
    requires
        subscription_snapshot::subscription_status_at(detail) != Some(1i64),
        subscription_snapshot::subscription_status_at(detail) != Some(7i64),
        subscription_snapshot::subscription_status_at(detail) != Some(9i64),
    ensures
        subscription_snapshot::state_of(detail, events, user_close_submitted, now)
            == subscription_snapshot::state_of(detail, events, user_close_submitted, later),
{
}

/// A detail without a status is not interpreted: whatever the events say, the
/// phase is unknown and no copy is selected.
pub proof fn missing_status_is_unknown(
    job: Seq<char>,
    detail: JsonView,
    events: Seq<EventView>,
    read: bool,
    user_close_submitted: bool,
    now: i64,
    times: MomentsView,
    synced_at: Seq<char>,
)
    requires
        json::int_at(detail, "status"@) is None,
        json::int_at(detail, "subStatus"@) is None,
    ensures
        ({
            let snapshot = subscription_snapshot::subscription_snapshot_of(
                job,
                detail,
                events,
                read,
                user_close_submitted,
                now,
                times,
                synced_at,
            );
            &&& snapshot.phase == LifecyclePhase::Unknown
            &&& snapshot.confidence == LifecycleConfidence::Unknown
            &&& snapshot.authoritative_status == "unavailable"@
            &&& snapshot.status_label == "Status unavailable"@
            &&& snapshot.display.template_id is None
        }),
{
    let keys = seq!["status"@, "subStatus"@];
    assert(keys.skip(1)[0] == "subStatus"@);
    reveal_with_fuel(json::first_int, 3);
}

/// The display has as many stages as it counts, and its progress is within them.
pub proof fn progress_is_within_the_stages(template: Option<u8>, phase: LifecyclePhase)
    ensures
        ({
            let progress = subscription_snapshot::progress_of(template, phase);
            &&& progress.timeline.len() == progress.total
            &&& 1 <= progress.step <= progress.total
            &&& 3 <= progress.total <= 5
        }),
{
}

/// A grace period is one of an active, renewing subscription, and is over once
/// its end has passed.
pub proof fn grace_is_between_two_times(
    detail: JsonView,
    events: Seq<EventView>,
    user_close_submitted: bool,
    now: i64,
)
    ensures
        ({
            let state = subscription_snapshot::state_of(detail, events, user_close_submitted, now);
            let m = subscription::subscription_milestones_of(detail, events);
            state.phase == LifecyclePhase::RenewalGracePeriod ==> {
                &&& state.status == Some(1i64)
                &&& state.auto_renew == Some(1i64)
                &&& crate::deadline::has_passed(m.current_period_ends_at, now)
                &&& !crate::deadline::has_passed(m.grace_period_ends_at, now)
            }
        }),
{
}

} // verus!
