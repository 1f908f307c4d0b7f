//! Subscriptions: milestones, templates and what is said of them.

use vstd::prelude::*;
use vstd::string::StringExecFns;

use crate::deadline;
use crate::deadline::{format_timestamp, timestamp_has_passed, utc_now_seconds};
use crate::display;
use crate::display::any_of_kind;
use crate::events;
use crate::events::{EventView, LifecycleEvent, LifecycleEventKind};
use crate::json;
use crate::json::{detail_string, or_text, Json, JsonView};
use crate::phase::LifecyclePhase;
use crate::text;
use crate::text::as_deref;

verus! {

/// The milestones of a subscription, as far as known.
#[derive(Debug, PartialEq, Eq)]
pub struct SubscriptionMilestones {
    pub created_at: Option<String>,
    pub accept_deadline_at: Option<String>,
    pub accepted_at: Option<String>,
    pub trial_started_at: Option<String>,
    pub trial_ends_at: Option<String>,
    pub trial_converted_at: Option<String>,
    pub current_period_started_at: Option<String>,
    pub current_period_ends_at: Option<String>,
    pub grace_period_ends_at: Option<String>,
    pub next_charge_at: Option<String>,
    pub last_renewed_at: Option<String>,
    pub renewal_warning_at: Option<String>,
    pub cancellation_requested_at: Option<String>,
    pub rejected_at: Option<String>,
    pub disputed_at: Option<String>,
    pub completed_at: Option<String>,
    pub closed_at: Option<String>,
    pub expired_at: Option<String>,
    pub refunded_at: Option<String>,
}

/// The model of the milestones of a subscription.
#[verifier::ext_equal]
pub struct SubscriptionMilestonesView {
    pub created_at: Option<Seq<char>>,
    pub accept_deadline_at: Option<Seq<char>>,
    pub accepted_at: Option<Seq<char>>,
    pub trial_started_at: Option<Seq<char>>,
    pub trial_ends_at: Option<Seq<char>>,
    pub trial_converted_at: Option<Seq<char>>,
    pub current_period_started_at: Option<Seq<char>>,
    pub current_period_ends_at: Option<Seq<char>>,
    pub grace_period_ends_at: Option<Seq<char>>,
    pub next_charge_at: Option<Seq<char>>,
    pub last_renewed_at: Option<Seq<char>>,
    pub renewal_warning_at: Option<Seq<char>>,
    pub cancellation_requested_at: Option<Seq<char>>,
    pub rejected_at: Option<Seq<char>>,
    pub disputed_at: Option<Seq<char>>,
    pub completed_at: Option<Seq<char>>,
    pub closed_at: Option<Seq<char>>,
    pub expired_at: Option<Seq<char>>,
    pub refunded_at: Option<Seq<char>>,
}

impl View for SubscriptionMilestones {
    type V = SubscriptionMilestonesView;

    open spec fn view(&self) -> SubscriptionMilestonesView {
        SubscriptionMilestonesView {
            created_at: text::opt_view(self.created_at),
            accept_deadline_at: text::opt_view(self.accept_deadline_at),
            accepted_at: text::opt_view(self.accepted_at),
            trial_started_at: text::opt_view(self.trial_started_at),
            trial_ends_at: text::opt_view(self.trial_ends_at),
            trial_converted_at: text::opt_view(self.trial_converted_at),
            current_period_started_at: text::opt_view(self.current_period_started_at),
            current_period_ends_at: text::opt_view(self.current_period_ends_at),
            grace_period_ends_at: text::opt_view(self.grace_period_ends_at),
            next_charge_at: text::opt_view(self.next_charge_at),
            last_renewed_at: text::opt_view(self.last_renewed_at),
            renewal_warning_at: text::opt_view(self.renewal_warning_at),
            cancellation_requested_at: text::opt_view(self.cancellation_requested_at),
            rejected_at: text::opt_view(self.rejected_at),
            disputed_at: text::opt_view(self.disputed_at),
            completed_at: text::opt_view(self.completed_at),
            closed_at: text::opt_view(self.closed_at),
            expired_at: text::opt_view(self.expired_at),
            refunded_at: text::opt_view(self.refunded_at),
        }
    }
}

impl Clone for SubscriptionMilestones {
    fn clone(&self) -> (r: SubscriptionMilestones)
        ensures
            r@ == self@,
    {
        SubscriptionMilestones {
            created_at: self.created_at.clone(),
            accept_deadline_at: self.accept_deadline_at.clone(),
            accepted_at: self.accepted_at.clone(),
            trial_started_at: self.trial_started_at.clone(),
            trial_ends_at: self.trial_ends_at.clone(),
            trial_converted_at: self.trial_converted_at.clone(),
            current_period_started_at: self.current_period_started_at.clone(),
            current_period_ends_at: self.current_period_ends_at.clone(),
            grace_period_ends_at: self.grace_period_ends_at.clone(),
            next_charge_at: self.next_charge_at.clone(),
            last_renewed_at: self.last_renewed_at.clone(),
            renewal_warning_at: self.renewal_warning_at.clone(),
            cancellation_requested_at: self.cancellation_requested_at.clone(),
            rejected_at: self.rejected_at.clone(),
            disputed_at: self.disputed_at.clone(),
            completed_at: self.completed_at.clone(),
            closed_at: self.closed_at.clone(),
            expired_at: self.expired_at.clone(),
            refunded_at: self.refunded_at.clone(),
        }
    }
}

/// Milestones of a subscription of which none is known.
pub open spec fn no_subscription_milestones() -> SubscriptionMilestonesView {
    SubscriptionMilestonesView {
        created_at: None,
        accept_deadline_at: None,
        accepted_at: None,
        trial_started_at: None,
        trial_ends_at: None,
        trial_converted_at: None,
        current_period_started_at: None,
        current_period_ends_at: None,
        grace_period_ends_at: None,
        next_charge_at: None,
        last_renewed_at: None,
        renewal_warning_at: None,
        cancellation_requested_at: None,
        rejected_at: None,
        disputed_at: None,
        completed_at: None,
        closed_at: None,
        expired_at: None,
        refunded_at: None,
    }
}

impl Default for SubscriptionMilestones {
    fn default() -> (r: SubscriptionMilestones)
        ensures
            r@ == no_subscription_milestones(),
    {
        SubscriptionMilestones {
            created_at: None,
            accept_deadline_at: None,
            accepted_at: None,
            trial_started_at: None,
            trial_ends_at: None,
            trial_converted_at: None,
            current_period_started_at: None,
            current_period_ends_at: None,
            grace_period_ends_at: None,
            next_charge_at: None,
            last_renewed_at: None,
            renewal_warning_at: None,
            cancellation_requested_at: None,
            rejected_at: None,
            disputed_at: None,
            completed_at: None,
            closed_at: None,
            expired_at: None,
            refunded_at: None,
        }
    }
}

/// The time of the first event of one of several kinds; none where that event has
/// no time.
pub open spec fn first_event_time(
    events: Seq<EventView>,
    kinds: Seq<LifecycleEventKind>,
) -> Option<Seq<char>>
    decreases events.len(),
{
    if events.len() == 0 {
        None
    } else if kinds.contains(events[0].kind) {
        events[0].occurred_at
    } else {
        first_event_time(events.skip(1), kinds)
    }
}

/// The time of the last event of one of several kinds; none where that event has
/// no time.
pub open spec fn last_event_time(
    events: Seq<EventView>,
    kinds: Seq<LifecycleEventKind>,
) -> Option<Seq<char>>
    decreases events.len(),
{
    if events.len() == 0 {
        None
    } else if kinds.contains(events.last().kind) {
        events.last().occurred_at
    } else {
        last_event_time(events.drop_last(), kinds)
    }
}

fn contains_kind(kinds: &[LifecycleEventKind], kind: LifecycleEventKind) -> (r: bool)
    ensures
        r == kinds@.contains(kind),
{
    let mut i: usize = 0;
    while i < kinds.len()
        invariant
            i <= kinds@.len(),
            forall|k: int| 0 <= k < i ==> kinds@[k] != kind,
        decreases kinds@.len() - i,
    {
        if kinds[i] == kind {
            return true;
        }
        i = i + 1;
    }
    false
}

/// The time of the first event of one of several kinds.
pub fn subscription_event_time(events: &[LifecycleEvent], kinds: &[LifecycleEventKind]) -> (r:
    Option<String>)
    ensures
        forall|listed: Seq<LifecycleEventKind>|
            listed =~= kinds@ ==> text::opt_view(r) == #[trigger] first_event_time(
                events::events_view(events@),
                listed,
            ),
{
    let ghost all = events::events_view(events@);
    assert(all.skip(0) =~= all);
    let mut i: usize = 0;
    while i < events.len()
        invariant
            i <= events@.len(),
            all == events::events_view(events@),
            first_event_time(all, kinds@) == first_event_time(all.skip(i as int), kinds@),
        decreases events@.len() - i,
    {
        assert(all.skip(i as int)[0] == events@[i as int]@);
        if contains_kind(kinds, events[i].kind) {
            return events[i].occurred_at.clone();
        }
        assert(all.skip(i as int).skip(1) =~= all.skip(i + 1));
        i = i + 1;
    }
    None
}

/// The time of the last event of one of several kinds.
pub fn subscription_last_event_time(
    events: &[LifecycleEvent],
    kinds: &[LifecycleEventKind],
) -> (r: Option<String>)
    ensures
        forall|listed: Seq<LifecycleEventKind>|
            listed =~= kinds@ ==> text::opt_view(r) == #[trigger] last_event_time(
                events::events_view(events@),
                listed,
            ),
{
    let ghost all = events::events_view(events@);
    let mut n: usize = events.len();
    assert(all.take(n as int) =~= all);
    while n > 0
        invariant
            n <= events@.len(),
            all == events::events_view(events@),
            last_event_time(all, kinds@) == last_event_time(all.take(n as int), kinds@),
        decreases n,
    {
        assert(all.take(n as int).last() == events@[n - 1]@);
        if contains_kind(kinds, events[n - 1].kind) {
            return events[n - 1].occurred_at.clone();
        }
        assert(all.take(n as int).drop_last() =~= all.take(n - 1));
        n = n - 1;
    }
    None
}

/// The milestones of a subscription: those that its detail states, and those
/// that events fill in. The time of a refund comes from the detail alone.
pub open spec fn subscription_milestones_of(
    detail: JsonView,
    events: Seq<EventView>,
) -> SubscriptionMilestonesView {
    SubscriptionMilestonesView {
        created_at: text::or_else_view(
            json::first_text(detail, seq!["createdAt"@, "createTime"@]),
            first_event_time(
                events,
                seq![
                    LifecycleEventKind::SubscriptionOpened,
                    LifecycleEventKind::SubscriptionCreated,
                ],
            ),
        ),
        accept_deadline_at: json::first_text(
            detail,
            seq!["acceptDeadline"@, "acceptExpireTime"@, "expireTime"@],
        ),
        accepted_at: text::or_else_view(
            json::first_text(detail, seq!["acceptedAt"@, "acceptTime"@]),
            first_event_time(
                events,
                seq![
                    LifecycleEventKind::SubscriptionCreated,
                    LifecycleEventKind::SubscriptionAspSelected,
                ],
            ),
        ),
        trial_started_at: json::first_text(detail, seq!["trialStartTime"@, "trailStartTime"@]),
        trial_ends_at: json::first_text(detail, seq!["trialEndTime"@, "trailEndTime"@]),
        trial_converted_at: first_event_time(
            events,
            seq![LifecycleEventKind::SubscriptionTrialConverted],
        ),
        current_period_started_at: json::first_text(detail, seq!["subStartTime"@, "periodStart"@]),
        current_period_ends_at: json::first_text(detail, seq!["subEndTime"@, "periodEnd"@]),
        grace_period_ends_at: json::first_text(detail, seq!["subBufferEndTime"@, "graceEndsAt"@]),
        next_charge_at: json::first_text(detail, seq!["nextChargeAt"@, "nextChargeTime"@]),
        last_renewed_at: last_event_time(events, seq![LifecycleEventKind::SubscriptionRenewed]),
        renewal_warning_at: last_event_time(
            events,
            seq![LifecycleEventKind::SubscriptionExpiryWarning],
        ),
        cancellation_requested_at: last_event_time(
            events,
            seq![LifecycleEventKind::SubscriptionCancelled],
        ),
        rejected_at: text::or_else_view(
            json::first_text(detail, seq!["rejectedAt"@, "rejectTime"@]),
            first_event_time(events, seq![LifecycleEventKind::SubscriptionDeliveryRejected]),
        ),
        disputed_at: text::or_else_view(
            json::first_text(detail, seq!["disputedAt"@, "disputeTime"@]),
            first_event_time(events, seq![LifecycleEventKind::SubscriptionDisputed]),
        ),
        completed_at: text::or_else_view(
            json::first_text(detail, seq!["completedAt"@, "completeTime"@]),
            first_event_time(events, seq![LifecycleEventKind::SubscriptionCompleted]),
        ),
        closed_at: text::or_else_view(
            json::first_text(detail, seq!["closedAt"@, "closeTime"@]),
            first_event_time(events, seq![LifecycleEventKind::SubscriptionClosed]),
        ),
        expired_at: json::text_at(detail, "expiredAt"@),
        refunded_at: json::first_text(detail, seq!["refundedAt"@, "refundTime"@]),
    }
}

fn stated_text(detail: &Json, first: &str, second: &str) -> (r: Option<String>)
    ensures
        text::opt_view(r) == json::first_text(detail@, seq![first@, second@]),
{
    detail_string(detail, &[first, second])
}

fn first_time(events: &[LifecycleEvent], kind: LifecycleEventKind) -> (r: Option<String>)
    ensures
        text::opt_view(r) == first_event_time(events::events_view(events@), seq![kind]),
{
    subscription_event_time(events, &[kind])
}

fn last_time(events: &[LifecycleEvent], kind: LifecycleEventKind) -> (r: Option<String>)
    ensures
        text::opt_view(r) == last_event_time(events::events_view(events@), seq![kind]),
{
    subscription_last_event_time(events, &[kind])
}

/// The milestones of a subscription, from its detail and its events.
pub fn subscription_milestones(detail: &Json, events: &[LifecycleEvent]) -> (r:
    SubscriptionMilestones)
    ensures
        r@ == subscription_milestones_of(detail@, events::events_view(events@)),
{
    SubscriptionMilestones {
        created_at: or_text(
            stated_text(detail, "createdAt", "createTime"),
            subscription_event_time(
                events,
                &[LifecycleEventKind::SubscriptionOpened, LifecycleEventKind::SubscriptionCreated],
            ),
        ),
        accept_deadline_at: detail_string(
            detail,
            &["acceptDeadline", "acceptExpireTime", "expireTime"],
        ),
        accepted_at: or_text(
            stated_text(detail, "acceptedAt", "acceptTime"),
            subscription_event_time(
                events,
                &[
                    LifecycleEventKind::SubscriptionCreated,
                    LifecycleEventKind::SubscriptionAspSelected,
                ],
            ),
        ),
        trial_started_at: stated_text(detail, "trialStartTime", "trailStartTime"),
        trial_ends_at: stated_text(detail, "trialEndTime", "trailEndTime"),
        trial_converted_at: first_time(events, LifecycleEventKind::SubscriptionTrialConverted),
        current_period_started_at: stated_text(detail, "subStartTime", "periodStart"),
        current_period_ends_at: stated_text(detail, "subEndTime", "periodEnd"),
        grace_period_ends_at: stated_text(detail, "subBufferEndTime", "graceEndsAt"),
        next_charge_at: stated_text(detail, "nextChargeAt", "nextChargeTime"),
        last_renewed_at: last_time(events, LifecycleEventKind::SubscriptionRenewed),
        renewal_warning_at: last_time(events, LifecycleEventKind::SubscriptionExpiryWarning),
        cancellation_requested_at: last_time(events, LifecycleEventKind::SubscriptionCancelled),
        rejected_at: or_text(
            stated_text(detail, "rejectedAt", "rejectTime"),
            first_time(events, LifecycleEventKind::SubscriptionDeliveryRejected),
        ),
        disputed_at: or_text(
            stated_text(detail, "disputedAt", "disputeTime"),
            first_time(events, LifecycleEventKind::SubscriptionDisputed),
        ),
        completed_at: or_text(
            stated_text(detail, "completedAt", "completeTime"),
            first_time(events, LifecycleEventKind::SubscriptionCompleted),
        ),
        closed_at: or_text(
            stated_text(detail, "closedAt", "closeTime"),
            first_time(events, LifecycleEventKind::SubscriptionClosed),
        ),
        expired_at: detail.text_at("expiredAt"),
        refunded_at: stated_text(detail, "refundedAt", "refundTime"),
    }
}

/// The phase of a subscription with a status.
pub open spec fn subscription_phase_of(
    status: Option<i64>,
    trial_type: Option<i64>,
    in_grace: bool,
    refund_proven: bool,
) -> LifecyclePhase {
    match status {
        Some(-1) => LifecyclePhase::Initializing,
        Some(0) => LifecyclePhase::WaitingForAsp,
        Some(1) => if in_grace {
            LifecyclePhase::RenewalGracePeriod
        } else if trial_type == Some(1i64) {
            LifecyclePhase::FreeTrial
        } else {
            LifecyclePhase::ActiveSubscription
        },
        Some(3) => LifecyclePhase::AwaitingAspDecision,
        Some(4) => LifecyclePhase::Disputed,
        Some(6) => LifecyclePhase::Completed,
        Some(7) => LifecyclePhase::Closed,
        Some(8) => LifecyclePhase::Expired,
        Some(9) => if refund_proven {
            LifecyclePhase::Refunded
        } else {
            LifecyclePhase::Failed
        },
        _ => LifecyclePhase::Unknown,
    }
}

/// The phase of a subscription with a status.
pub fn subscription_phase(
    status: Option<i64>,
    trial_type: Option<i64>,
    in_grace: bool,
    refund_proven: bool,
) -> (r: LifecyclePhase)
    ensures
        r == subscription_phase_of(status, trial_type, in_grace, refund_proven),
{
    match status {
        Some(-1) => LifecyclePhase::Initializing,
        Some(0) => LifecyclePhase::WaitingForAsp,
        Some(1) => if in_grace {
            LifecyclePhase::RenewalGracePeriod
        } else if is_number(trial_type, 1) {
            LifecyclePhase::FreeTrial
        } else {
            LifecyclePhase::ActiveSubscription
        },
        Some(3) => LifecyclePhase::AwaitingAspDecision,
        Some(4) => LifecyclePhase::Disputed,
        Some(6) => LifecyclePhase::Completed,
        Some(7) => LifecyclePhase::Closed,
        Some(8) => LifecyclePhase::Expired,
        Some(9) => if refund_proven {
            LifecyclePhase::Refunded
        } else {
            LifecyclePhase::Failed
        },
        _ => LifecyclePhase::Unknown,
    }
}

fn is_number(value: Option<i64>, expected: i64) -> (r: bool)
    ensures
        r == (value == Some(expected)),
{
    match value {
        Some(n) => n == expected,
        None => false,
    }
}

/// Whether the ASP is known to have accepted a subscription.
pub open spec fn was_accepted(m: SubscriptionMilestonesView, events: Seq<EventView>) -> bool {
    m.accepted_at is Some || m.trial_started_at is Some || m.current_period_started_at is Some
        || display::has_kind(events, LifecycleEventKind::SubscriptionCreated)
}

/// Whether the user is known to have closed a subscription.
pub open spec fn was_cancelled(events: Seq<EventView>, user_close_submitted: bool) -> bool {
    user_close_submitted || display::has_kind(events, LifecycleEventKind::SubscriptionCancelled)
}

/// Whether a subscription is known to have been disputed.
pub open spec fn was_disputed(events: Seq<EventView>) -> bool {
    display::has_kind(events, LifecycleEventKind::SubscriptionDisputed) || display::has_kind(
        events,
        LifecycleEventKind::DisputeResolved,
    )
}

/// The number of the approved copy for the state of a subscription at a time.
pub open spec fn template_of(
    status: Option<i64>,
    trial_type: Option<i64>,
    auto_renew: Option<i64>,
    in_grace: bool,
    refund_proven: bool,
    m: SubscriptionMilestonesView,
    events: Seq<EventView>,
    user_close_submitted: bool,
    now: i64,
) -> Option<u8> {
    let is_trial = trial_type == Some(1i64);
    let grace_ended = deadline::has_passed(m.grace_period_ends_at, now);
    match status {
        Some(-1) => Some(1),
        Some(0) => Some(2),
        Some(1) => if is_trial {
            Some(3)
        } else if in_grace {
            Some(11)
        } else if auto_renew == Some(0i64) {
            Some(5)
        } else {
            Some(4)
        },
        Some(3) => Some(14),
        Some(4) => Some(16),
        Some(6) => if was_disputed(events) {
            Some(18)
        } else {
            Some(13)
        },
        Some(8) => if was_cancelled(events, user_close_submitted) {
            Some(8)
        } else {
            Some(7)
        },
        Some(7) => if !was_accepted(m, events) {
            if was_cancelled(events, user_close_submitted) {
                Some(8)
            } else {
                Some(6)
            }
        } else if is_trial {
            Some(10)
        } else if grace_ended {
            Some(12)
        } else {
            Some(13)
        },
        Some(9) => if refund_proven {
            if was_disputed(events) {
                Some(17)
            } else {
                Some(15)
            }
        } else if is_trial {
            Some(9)
        } else if grace_ended {
            Some(12)
        } else {
            None
        },
        _ => None,
    }
}

/// The number of the approved copy for the state of a subscription at a time.
pub fn subscription_template_number_at(
    status: Option<i64>,
    trial_type: Option<i64>,
    auto_renew: Option<i64>,
    in_grace: bool,
    refund_proven: bool,
    milestones: &SubscriptionMilestones,
    events: &[LifecycleEvent],
    user_close_submitted: bool,
    now: i64,
) -> (r: Option<u8>)
    ensures
        r == template_of(
            status,
            trial_type,
            auto_renew,
            in_grace,
            refund_proven,
            milestones@,
            events::events_view(events@),
            user_close_submitted,
            now,
        ),
{
    let is_trial = is_number(trial_type, 1);
    let accepted = milestones.accepted_at.is_some() || milestones.trial_started_at.is_some()
        || milestones.current_period_started_at.is_some() || any_of_kind(
        events,
        LifecycleEventKind::SubscriptionCreated,
    );
    let cancelled = user_close_submitted || any_of_kind(
        events,
        LifecycleEventKind::SubscriptionCancelled,
    );
    let disputed = any_of_kind(events, LifecycleEventKind::SubscriptionDisputed) || any_of_kind(
        events,
        LifecycleEventKind::DisputeResolved,
    );
    let grace_ended = timestamp_has_passed(as_deref(&milestones.grace_period_ends_at), now);
    match status {
        Some(-1) => Some(1),
        Some(0) => Some(2),
        Some(1) => if is_trial {
            Some(3)
        } else if in_grace {
            Some(11)
        } else if is_number(auto_renew, 0) {
            Some(5)
        } else {
            Some(4)
        },
        Some(3) => Some(14),
        Some(4) => Some(16),
        Some(6) => if disputed {
            Some(18)
        } else {
            Some(13)
        },
        Some(8) => if cancelled {
            Some(8)
        } else {
            Some(7)
        },
        Some(7) => if !accepted {
            if cancelled {
                Some(8)
            } else {
                Some(6)
            }
        } else if is_trial {
            Some(10)
        } else if grace_ended {
            Some(12)
        } else {
            Some(13)
        },
        Some(9) => if refund_proven {
            if disputed {
                Some(17)
            } else {
                Some(15)
            }
        } else if is_trial {
            Some(9)
        } else if grace_ended {
            Some(12)
        } else {
            None
        },
        _ => None,
    }
}

/// Whether a number is that of the approved copy at some time.
pub open spec fn is_template_at_some_time(
    template: Option<u8>,
    status: Option<i64>,
    trial_type: Option<i64>,
    auto_renew: Option<i64>,
    in_grace: bool,
    refund_proven: bool,
    m: SubscriptionMilestonesView,
    events: Seq<EventView>,
    user_close_submitted: bool,
) -> bool {
    exists|now: i64|
        template == #[trigger] template_of(
            status,
            trial_type,
            auto_renew,
            in_grace,
            refund_proven,
            m,
            events,
            user_close_submitted,
            now,
        )
}

/// The number of the approved copy for the state of a subscription, by the
/// clock.
pub fn subscription_template_number(
    status: Option<i64>,
    trial_type: Option<i64>,
    auto_renew: Option<i64>,
    in_grace: bool,
    refund_proven: bool,
    milestones: &SubscriptionMilestones,
    events: &[LifecycleEvent],
    user_close_submitted: bool,
) -> (r: Option<u8>)
    ensures
        is_template_at_some_time(
            r,
            status,
            trial_type,
            auto_renew,
            in_grace,
            refund_proven,
            milestones@,
            events::events_view(events@),
            user_close_submitted,
        ),
{
    subscription_template_number_at(
        status,
        trial_type,
        auto_renew,
        in_grace,
        refund_proven,
        milestones,
        events,
        user_close_submitted,
        utc_now_seconds(),
    )
}

/// The label of a subscription without an approved copy.
pub open spec fn plain_label(phase: LifecyclePhase, auto_renew: Option<i64>) -> Seq<char> {
    match phase {
        LifecyclePhase::Initializing => "Subscription initializing"@,
        LifecyclePhase::WaitingForAsp => "Waiting for ASP acceptance"@,
        LifecyclePhase::FreeTrial => "Free trial active"@,
        LifecyclePhase::ActiveSubscription => if auto_renew == Some(0i64) {
            "Active until the current period ends"@
        } else {
            "Subscription active"@
        },
        LifecyclePhase::RenewalGracePeriod => "Renewal payment in grace period"@,
        LifecyclePhase::AwaitingAspDecision => "Waiting for ASP refund decision"@,
        LifecyclePhase::Disputed => "Evaluation in progress"@,
        LifecyclePhase::Completed => "Subscription completed"@,
        LifecyclePhase::Closed => "Subscription closed"@,
        LifecyclePhase::Expired => "Subscription expired"@,
        LifecyclePhase::Refunded => "Refund completed"@,
        LifecyclePhase::Failed => "Subscription result needs reconciliation"@,
        LifecyclePhase::Rejected => "Waiting for ASP refund decision"@,
        LifecyclePhase::AspExecuting => "Subscription active"@,
        LifecyclePhase::WaitingForUserReview => "Waiting for user review"@,
        LifecyclePhase::Unknown => "Status unavailable"@,
    }
}

/// The label of a subscription: that of its approved copy, else of its phase.
pub open spec fn subscription_label(
    template: Option<u8>,
    phase: LifecyclePhase,
    auto_renew: Option<i64>,
) -> Seq<char> {
    match template {
        Some(1) => "Creating subscription task"@,
        Some(2) => "Task created; waiting for ASP acceptance"@,
        Some(3) => "Free trial active"@,
        Some(4) => "Subscription active; auto-renewal enabled"@,
        Some(5) => "Subscription active; auto-renewal disabled"@,
        Some(6) => "ASP declined the task; task closed"@,
        Some(7) => "ASP acceptance deadline passed; task closed automatically"@,
        Some(8) => "User closed the task"@,
        Some(9) => "Paid subscription did not start; task closed"@,
        Some(10) => "Free trial ended; task closed"@,
        Some(11) => "Renewal payment failed; subscription is in the grace period"@,
        Some(12) => "Payment was not completed during the grace period; subscription ended"@,
        Some(13) => "All current service periods ended; subscription completed"@,
        Some(14) => "Subscription ended; refund request pending"@,
        Some(15) => "Refund completed; task closed"@,
        Some(16) => "Evaluation in progress; waiting for evaluator votes"@,
        Some(17) => "Evaluation completed; user won; task closed"@,
        Some(18) => "Evaluation completed; ASP won; task closed"@,
        _ => plain_label(phase, auto_renew),
    }
}

fn plain_label_text(phase: LifecyclePhase, auto_renew: Option<i64>) -> (r: &'static str)
    ensures
        r@ == plain_label(phase, auto_renew),
{
    let ends = is_number(auto_renew, 0);
    match phase {
        LifecyclePhase::Initializing => "Subscription initializing",
        LifecyclePhase::WaitingForAsp => "Waiting for ASP acceptance",
        LifecyclePhase::FreeTrial => "Free trial active",
        LifecyclePhase::ActiveSubscription => if ends {
            "Active until the current period ends"
        } else {
            "Subscription active"
        },
        LifecyclePhase::RenewalGracePeriod => "Renewal payment in grace period",
        LifecyclePhase::AwaitingAspDecision => "Waiting for ASP refund decision",
        LifecyclePhase::Disputed => "Evaluation in progress",
        LifecyclePhase::Completed => "Subscription completed",
        LifecyclePhase::Closed => "Subscription closed",
        LifecyclePhase::Expired => "Subscription expired",
        LifecyclePhase::Refunded => "Refund completed",
        LifecyclePhase::Failed => "Subscription result needs reconciliation",
        LifecyclePhase::Rejected => "Waiting for ASP refund decision",
        LifecyclePhase::AspExecuting => "Subscription active",
        LifecyclePhase::WaitingForUserReview => "Waiting for user review",
        LifecyclePhase::Unknown => "Status unavailable",
    }
}

/// The label of a subscription: that of its approved copy, else of its phase.
pub fn subscription_status_label(
    template_number: Option<u8>,
    phase: LifecyclePhase,
    auto_renew: Option<i64>,
) -> (r: &'static str)
    ensures
        r@ == subscription_label(template_number, phase, auto_renew),
{
    match template_number {
        Some(1) => "Creating subscription task",
        Some(2) => "Task created; waiting for ASP acceptance",
        Some(3) => "Free trial active",
        Some(4) => "Subscription active; auto-renewal enabled",
        Some(5) => "Subscription active; auto-renewal disabled",
        Some(6) => "ASP declined the task; task closed",
        Some(7) => "ASP acceptance deadline passed; task closed automatically",
        Some(8) => "User closed the task",
        Some(9) => "Paid subscription did not start; task closed",
        Some(10) => "Free trial ended; task closed",
        Some(11) => "Renewal payment failed; subscription is in the grace period",
        Some(12) => "Payment was not completed during the grace period; subscription ended",
        Some(13) => "All current service periods ended; subscription completed",
        Some(14) => "Subscription ended; refund request pending",
        Some(15) => "Refund completed; task closed",
        Some(16) => "Evaluation in progress; waiting for evaluator votes",
        Some(17) => "Evaluation completed; user won; task closed",
        Some(18) => "Evaluation completed; ASP won; task closed",
        _ => plain_label_text(phase, auto_renew),
    }
}

/// Who has to act on a subscription without an approved copy.
pub open spec fn plain_party(phase: LifecyclePhase) -> Seq<char> {
    match phase {
        LifecyclePhase::Initializing => "official"@,
        LifecyclePhase::Disputed => "official"@,
        LifecyclePhase::Unknown => "official"@,
        LifecyclePhase::WaitingForAsp => "asp"@,
        LifecyclePhase::FreeTrial => "asp"@,
        LifecyclePhase::ActiveSubscription => "asp"@,
        LifecyclePhase::AwaitingAspDecision => "asp"@,
        LifecyclePhase::Rejected => "asp"@,
        LifecyclePhase::AspExecuting => "asp"@,
        LifecyclePhase::RenewalGracePeriod => "user"@,
        LifecyclePhase::WaitingForUserReview => "user"@,
        _ => "none"@,
    }
}

/// Who has to act on a subscription.
pub open spec fn subscription_party(template: Option<u8>, phase: LifecyclePhase) -> Seq<char> {
    match template {
        Some(1) => "platform"@,
        Some(2) | Some(3) | Some(4) | Some(5) | Some(14) => "asp"@,
        Some(11) => "user"@,
        Some(16) => "evaluator"@,
        Some(n) => if 6 <= n <= 18 {
            "none"@
        } else {
            plain_party(phase)
        },
        None => plain_party(phase),
    }
}

fn plain_party_text(phase: LifecyclePhase) -> (r: &'static str)
    ensures
        r@ == plain_party(phase),
{
    match phase {
        LifecyclePhase::Initializing => "official",
        LifecyclePhase::Disputed => "official",
        LifecyclePhase::Unknown => "official",
        LifecyclePhase::WaitingForAsp => "asp",
        LifecyclePhase::FreeTrial => "asp",
        LifecyclePhase::ActiveSubscription => "asp",
        LifecyclePhase::AwaitingAspDecision => "asp",
        LifecyclePhase::Rejected => "asp",
        LifecyclePhase::AspExecuting => "asp",
        LifecyclePhase::RenewalGracePeriod => "user",
        LifecyclePhase::WaitingForUserReview => "user",
        _ => "none",
    }
}

/// Who has to act on a subscription.
pub fn subscription_responsible_party(template_number: Option<u8>, phase: LifecyclePhase) -> (r:
    &'static str)
    ensures
        r@ == subscription_party(template_number, phase),
{
    match template_number {
        Some(1) => "platform",
        Some(2) | Some(3) | Some(4) | Some(5) | Some(14) => "asp",
        Some(11) => "user",
        Some(16) => "evaluator",
        Some(n) => if 6 <= n && n <= 18 {
            "none"
        } else {
            plain_party_text(phase)
        },
        None => plain_party_text(phase),
    }
}

/// The moments that the next action of a subscription speaks of: as timestamps,
/// or as local times.
#[derive(Debug, PartialEq, Eq)]
pub struct SubscriptionMoments {
    pub accept_deadline: Option<String>,
    pub trial_end: Option<String>,
    pub first_charge: Option<String>,
    pub last_cancel: Option<String>,
    pub next_charge: Option<String>,
    pub period_end: Option<String>,
    pub grace_end: Option<String>,
    pub response_deadline: Option<String>,
    pub voting_deadline: Option<String>,
}

/// The model of the moments of a subscription.
#[verifier::ext_equal]
pub struct MomentsView {
    pub accept_deadline: Option<Seq<char>>,
    pub trial_end: Option<Seq<char>>,
    pub first_charge: Option<Seq<char>>,
    pub last_cancel: Option<Seq<char>>,
    pub next_charge: Option<Seq<char>>,
    pub period_end: Option<Seq<char>>,
    pub grace_end: Option<Seq<char>>,
    pub response_deadline: Option<Seq<char>>,
    pub voting_deadline: Option<Seq<char>>,
}

impl View for SubscriptionMoments {
    type V = MomentsView;

    open spec fn view(&self) -> MomentsView {
        MomentsView {
            accept_deadline: text::opt_view(self.accept_deadline),
            trial_end: text::opt_view(self.trial_end),
            first_charge: text::opt_view(self.first_charge),
            last_cancel: text::opt_view(self.last_cancel),
            next_charge: text::opt_view(self.next_charge),
            period_end: text::opt_view(self.period_end),
            grace_end: text::opt_view(self.grace_end),
            response_deadline: text::opt_view(self.response_deadline),
            voting_deadline: text::opt_view(self.voting_deadline),
        }
    }
}

/// The timestamps that the next action of a subscription speaks of.
pub open spec fn moments_of(detail: JsonView, m: SubscriptionMilestonesView) -> MomentsView {
    MomentsView {
        accept_deadline: m.accept_deadline_at,
        trial_end: m.trial_ends_at,
        first_charge: text::or_else_view(
            json::first_text(detail, seq!["firstChargeAt"@, "nextChargeAt"@, "nextChargeTime"@]),
            m.trial_ends_at,
        ),
        last_cancel: text::or_else_view(
            json::first_text(detail, seq!["lastCancelAt"@, "cancelDeadline"@]),
            m.trial_ends_at,
        ),
        next_charge: text::or_else_view(m.next_charge_at, m.current_period_ends_at),
        period_end: m.current_period_ends_at,
        grace_end: m.grace_period_ends_at,
        response_deadline: json::first_text(
            detail,
            seq!["rejectWindowEndsAt"@, "responseDeadline"@, "reviewDeadlineAt"@],
        ),
        voting_deadline: json::first_text(
            detail,
            seq!["votingDeadline"@, "voteCommitDeadline"@, "reviewDeadlineAt"@],
        ),
    }
}

/// The timestamps that the next action of a subscription speaks of.
pub fn subscription_moments(detail: &Json, m: &SubscriptionMilestones) -> (r: SubscriptionMoments)
    ensures
        r@ == moments_of(detail@, m@),
{
    SubscriptionMoments {
        accept_deadline: m.accept_deadline_at.clone(),
        trial_end: m.trial_ends_at.clone(),
        first_charge: or_text(
            detail_string(detail, &["firstChargeAt", "nextChargeAt", "nextChargeTime"]),
            m.trial_ends_at.clone(),
        ),
        last_cancel: or_text(
            detail_string(detail, &["lastCancelAt", "cancelDeadline"]),
            m.trial_ends_at.clone(),
        ),
        next_charge: or_text(m.next_charge_at.clone(), m.current_period_ends_at.clone()),
        period_end: m.current_period_ends_at.clone(),
        grace_end: m.grace_period_ends_at.clone(),
        response_deadline: detail_string(
            detail,
            &["rejectWindowEndsAt", "responseDeadline", "reviewDeadlineAt"],
        ),
        voting_deadline: detail_string(
            detail,
            &["votingDeadline", "voteCommitDeadline", "reviewDeadlineAt"],
        ),
    }
}

/// Whether local times are those of the moments, as any time zone may write
/// them.
pub open spec fn are_local_moments(times: MomentsView, moments: MomentsView) -> bool {
    &&& deadline::is_time_of(times.accept_deadline, moments.accept_deadline)
    &&& deadline::is_time_of(times.trial_end, moments.trial_end)
    &&& deadline::is_time_of(times.first_charge, moments.first_charge)
    &&& deadline::is_time_of(times.last_cancel, moments.last_cancel)
    &&& deadline::is_time_of(times.next_charge, moments.next_charge)
    &&& deadline::is_time_of(times.period_end, moments.period_end)
    &&& deadline::is_time_of(times.grace_end, moments.grace_end)
    &&& deadline::is_time_of(times.response_deadline, moments.response_deadline)
    &&& deadline::is_time_of(times.voting_deadline, moments.voting_deadline)
}

fn local_moment(value: &Option<String>) -> (r: Option<String>)
    ensures
        deadline::is_time_of(text::opt_view(r), text::opt_view(*value)),
{
    format_timestamp(as_deref(value))
}

/// The local times of the moments.
pub fn local_moments(moments: &SubscriptionMoments) -> (r: SubscriptionMoments)
    ensures
        are_local_moments(r@, moments@),
{
    SubscriptionMoments {
        accept_deadline: local_moment(&moments.accept_deadline),
        trial_end: local_moment(&moments.trial_end),
        first_charge: local_moment(&moments.first_charge),
        last_cancel: local_moment(&moments.last_cancel),
        next_charge: local_moment(&moments.next_charge),
        period_end: local_moment(&moments.period_end),
        grace_end: local_moment(&moments.grace_end),
        response_deadline: local_moment(&moments.response_deadline),
        voting_deadline: local_moment(&moments.voting_deadline),
    }
}

/// The reason that the latest event with one states.
pub open spec fn latest_reason(events: Seq<EventView>) -> Option<Seq<char>>
    decreases events.len(),
{
    if events.len() == 0 {
        None
    } else {
        text::or_else_view(events.last().reason, latest_reason(events.drop_last()))
    }
}

fn latest_event_reason(events: &[LifecycleEvent]) -> (r: Option<String>)
    ensures
        text::opt_view(r) == latest_reason(events::events_view(events@)),
{
    let ghost all = events::events_view(events@);
    let mut n: usize = events.len();
    assert(all.take(n as int) =~= all);
    while n > 0
        invariant
            n <= events@.len(),
            all == events::events_view(events@),
            latest_reason(all) == latest_reason(all.take(n as int)),
        decreases n,
    {
        assert(all.take(n as int).last() == events@[n - 1]@);
        if events[n - 1].reason.is_some() {
            return events[n - 1].reason.clone();
        }
        assert(all.take(n as int).drop_last() =~= all.take(n - 1));
        n = n - 1;
    }
    None
}

/// An optional text, or the one that stands for it.
pub open spec fn text_or(value: Option<Seq<char>>, without: Seq<char>) -> Seq<char> {
    match value {
        Some(t) => t,
        None => without,
    }
}

fn or_words(value: Option<String>, without: &str) -> (r: String)
    ensures
        r@ == text_or(text::opt_view(value), without@),
{
    match value {
        Some(t) => t,
        None => without.to_string(),
    }
}

/// What the next action says of a charge.
#[derive(Debug, PartialEq, Eq)]
pub struct ChargeWords {
    pub amount: String,
    pub token: String,
    pub reason: String,
    pub advice: String,
}

/// The model of what is said of a charge.
#[verifier::ext_equal]
pub struct ChargeWordsView {
    pub amount: Seq<char>,
    pub token: Seq<char>,
    pub reason: Seq<char>,
    pub advice: Seq<char>,
}

impl View for ChargeWords {
    type V = ChargeWordsView;

    open spec fn view(&self) -> ChargeWordsView {
        ChargeWordsView {
            amount: self.amount@,
            token: self.token@,
            reason: self.reason@,
            advice: self.advice@,
        }
    }
}

/// What a detail and the events say of a charge.
pub open spec fn charge_words_of(detail: JsonView, events: Seq<EventView>) -> ChargeWordsView {
    ChargeWordsView {
        amount: text_or(
            json::first_text(
                detail,
                seq!["serviceTokenAmount"@, "tokenAmount"@, "paymentTokenAmount"@, "refundAmount"@],
            ),
            "an unavailable amount"@,
        ),
        token: text_or(
            json::first_text(
                detail,
                seq![
                    "serviceTokenSymbol"@,
                    "tokenSymbol"@,
                    "paymentTokenSymbol"@,
                    "refundTokenSymbol"@,
                ],
            ),
            "an unavailable token"@,
        ),
        reason: text_or(
            text::or_else_view(
                json::first_text(
                    detail,
                    seq![
                        "failReason"@,
                        "failReasopn"@,
                        "aspRejectReason"@,
                        "refundReason"@,
                        "reason"@,
                    ],
                ),
                latest_reason(events),
            ),
            "unavailable"@,
        ),
        advice: text_or(
            json::first_text(detail, seq!["nextAction"@, "recommendedAction"@]),
            "fund the wallet and refresh any required allowance"@,
        ),
    }
}

/// What a detail and the events say of a charge.
pub fn charge_words(detail: &Json, events: &[LifecycleEvent]) -> (r: ChargeWords)
    ensures
        r@ == charge_words_of(detail@, events::events_view(events@)),
{
    ChargeWords {
        amount: or_words(
            detail_string(
                detail,
                &["serviceTokenAmount", "tokenAmount", "paymentTokenAmount", "refundAmount"],
            ),
            "an unavailable amount",
        ),
        token: or_words(
            detail_string(
                detail,
                &["serviceTokenSymbol", "tokenSymbol", "paymentTokenSymbol", "refundTokenSymbol"],
            ),
            "an unavailable token",
        ),
        reason: or_words(
            or_text(
                detail_string(
                    detail,
                    &["failReason", "failReasopn", "aspRejectReason", "refundReason", "reason"],
                ),
                latest_event_reason(events),
            ),
            "unavailable",
        ),
        advice: or_words(
            detail_string(detail, &["nextAction", "recommendedAction"]),
            "fund the wallet and refresh any required allowance",
        ),
    }
}

/// A local time, or the words that it is not known.
pub open spec fn time_word(time: Option<Seq<char>>) -> Seq<char> {
    text_or(time, "an unavailable time"@)
}

fn time_text(time: &Option<String>) -> (r: &str)
    ensures
        r@ == time_word(text::opt_view(*time)),
{
    match time {
        Some(t) => t.as_str(),
        None => "an unavailable time",
    }
}

/// The next action on a subscription without an approved copy.
pub open spec fn plain_action(phase: LifecyclePhase, auto_renew: Option<i64>) -> Seq<char> {
    match phase {
        LifecyclePhase::Initializing => "Wait for on-chain confirmation"@,
        LifecyclePhase::WaitingForAsp => "Wait for the ASP to accept the subscription"@,
        LifecyclePhase::FreeTrial => "Use the service or cancel before the trial ends if you do not want the first charge"@,
        LifecyclePhase::ActiveSubscription => if auto_renew == Some(0i64) {
            "Enable auto-renewal before the current period ends to continue the service"@
        } else {
            "Continue using the service and keep enough balance for the next renewal"@
        },
        LifecyclePhase::AspExecuting => "Continue using the service and keep enough balance for the next renewal"@,
        LifecyclePhase::RenewalGracePeriod => "Fund the wallet before the grace period ends so renewal can complete"@,
        LifecyclePhase::AwaitingAspDecision => "Wait for the ASP to approve the refund or request an evaluation"@,
        LifecyclePhase::Rejected => "Wait for the ASP to approve the refund or request an evaluation"@,
        LifecyclePhase::Disputed => "Wait for the evaluation result"@,
        LifecyclePhase::WaitingForUserReview => "Review the current delivery"@,
        LifecyclePhase::Failed => "Reconcile the final payment or refund result"@,
        LifecyclePhase::Completed => "No further subscription action"@,
        LifecyclePhase::Closed => "No further subscription action"@,
        LifecyclePhase::Expired => "No further subscription action"@,
        LifecyclePhase::Refunded => "No further subscription action"@,
        LifecyclePhase::Unknown => "Try the subscription query again later"@,
    }
}

/// The next action on a subscription: that of its approved copy, else of its
/// phase.
pub open spec fn subscription_action(
    template: Option<u8>,
    phase: LifecyclePhase,
    auto_renew: Option<i64>,
    words: ChargeWordsView,
    times: MomentsView,
) -> Seq<char> {
    match template {
        Some(1) => "Wait for subscription task creation to complete."@,
        Some(2) => "Wait for the ASP to accept before "@
            + time_word(times.accept_deadline)
            + ". If the ASP does not respond before the deadline, the task will close automatically and any paid service fee will be returned to the wallet."@,
        Some(3) => "The free trial ends at "@
            + time_word(times.trial_end)
            + ". The system will charge "@
            + words.amount
            + " "@
            + words.token
            + " at "@
            + time_word(times.first_charge)
            + " and convert it to a paid subscription. Cancel before "@
            + time_word(times.last_cancel)
            + " if you do not want to continue."@,
        Some(4) => "The system will automatically charge "@
            + words.amount
            + " "@
            + words.token
            + " at "@
            + time_word(times.next_charge)
            + ". Keep enough wallet balance and allowance available."@,
        Some(5) => "The current service remains available until "@
            + time_word(times.period_end)
            + " and will then end automatically. Enable auto-renewal before expiry to continue."@,
        Some(6) | Some(7) | Some(8) => "No action is required. A supported free-trial entitlement is unaffected; any paid service fee will be returned automatically when applicable."@,
        Some(9) => "Charge failure reason: "@
            + words.reason
            + ". The system will not retry automatically. To continue, "@
            + words.advice
            + ", then subscribe again."@,
        Some(10) => "No action is required. The paid subscription did not begin, so no subscription fee will be charged."@,
        Some(11) => "The grace period ends at "@
            + time_word(times.grace_end)
            + ". Before then, "@
            + words.advice
            + ". Service remains active during the grace period and the system will keep retrying; if payment is still incomplete at expiry, the subscription will end automatically. Charge failure reason: "@
            + words.reason
            + "."@,
        Some(12) => "No action is required. Subscribe again if you want to continue using the service."@,
        Some(13) => "No action is required. Subscribe again to continue using the service."@,
        Some(14) => "The ASP must approve the refund or request an evaluation before "@
            + time_word(times.response_deadline)
            + ". If no action is taken by the deadline, the system will approve the refund automatically."@,
        Some(15) => "No action is required. The current-period fee of "@
            + words.amount
            + " "@
            + words.token
            + " will be returned automatically to the wallet."@,
        Some(16) => "Evaluators must finish voting before "@
            + time_word(times.voting_deadline)
            + ". The platform will handle the current-period fee according to the result."@,
        Some(17) => "The current-period fee of "@
            + words.amount
            + " "@
            + words.token
            + " will be returned automatically to the wallet."@,
        Some(18) => "The current-period fee will not be refunded; the system will settle it to the ASP automatically."@,
        _ => plain_action(phase, auto_renew),
    }
}

fn plain_action_text(phase: LifecyclePhase, auto_renew: Option<i64>) -> (r: &'static str)
    ensures
        r@ == plain_action(phase, auto_renew),
{
    let ends = is_number(auto_renew, 0);
    match phase {
        LifecyclePhase::Initializing => "Wait for on-chain confirmation",
        LifecyclePhase::WaitingForAsp => "Wait for the ASP to accept the subscription",
        LifecyclePhase::FreeTrial => "Use the service or cancel before the trial ends if you do not want the first charge",
        LifecyclePhase::ActiveSubscription => if ends {
            "Enable auto-renewal before the current period ends to continue the service"
        } else {
            "Continue using the service and keep enough balance for the next renewal"
        },
        LifecyclePhase::AspExecuting => "Continue using the service and keep enough balance for the next renewal",
        LifecyclePhase::RenewalGracePeriod => "Fund the wallet before the grace period ends so renewal can complete",
        LifecyclePhase::AwaitingAspDecision => "Wait for the ASP to approve the refund or request an evaluation",
        LifecyclePhase::Rejected => "Wait for the ASP to approve the refund or request an evaluation",
        LifecyclePhase::Disputed => "Wait for the evaluation result",
        LifecyclePhase::WaitingForUserReview => "Review the current delivery",
        LifecyclePhase::Failed => "Reconcile the final payment or refund result",
        LifecyclePhase::Completed => "No further subscription action",
        LifecyclePhase::Closed => "No further subscription action",
        LifecyclePhase::Expired => "No further subscription action",
        LifecyclePhase::Refunded => "No further subscription action",
        LifecyclePhase::Unknown => "Try the subscription query again later",
    }
}

/// The next action on a subscription, with the local times of its moments.
pub fn subscription_next_action(
    template_number: Option<u8>,
    phase: LifecyclePhase,
    auto_renew: Option<i64>,
    words: &ChargeWords,
    times: &SubscriptionMoments,
) -> (r: String)
    ensures
        r@ == subscription_action(template_number, phase, auto_renew, words@, times@),
{
    match template_number {
        Some(1) => "Wait for subscription task creation to complete.".to_string(),
        Some(2) => "Wait for the ASP to accept before ".to_string()
            .concat(time_text(&times.accept_deadline))
            .concat(". If the ASP does not respond before the deadline, the task will close automatically and any paid service fee will be returned to the wallet."),
        Some(3) => "The free trial ends at ".to_string()
            .concat(time_text(&times.trial_end))
            .concat(". The system will charge ")
            .concat(words.amount.as_str())
            .concat(" ")
            .concat(words.token.as_str())
            .concat(" at ")
            .concat(time_text(&times.first_charge))
            .concat(" and convert it to a paid subscription. Cancel before ")
            .concat(time_text(&times.last_cancel))
            .concat(" if you do not want to continue."),
        Some(4) => "The system will automatically charge ".to_string()
            .concat(words.amount.as_str())
            .concat(" ")
            .concat(words.token.as_str())
            .concat(" at ")
            .concat(time_text(&times.next_charge))
            .concat(". Keep enough wallet balance and allowance available."),
        Some(5) => "The current service remains available until ".to_string()
            .concat(time_text(&times.period_end))
            .concat(" and will then end automatically. Enable auto-renewal before expiry to continue."),
        Some(6) | Some(7) | Some(8) => "No action is required. A supported free-trial entitlement is unaffected; any paid service fee will be returned automatically when applicable.".to_string(),
        Some(9) => "Charge failure reason: ".to_string()
            .concat(words.reason.as_str())
            .concat(". The system will not retry automatically. To continue, ")
            .concat(words.advice.as_str())
            .concat(", then subscribe again."),
        Some(10) => "No action is required. The paid subscription did not begin, so no subscription fee will be charged.".to_string(),
        Some(11) => "The grace period ends at ".to_string()
            .concat(time_text(&times.grace_end))
            .concat(". Before then, ")
            .concat(words.advice.as_str())
            .concat(". Service remains active during the grace period and the system will keep retrying; if payment is still incomplete at expiry, the subscription will end automatically. Charge failure reason: ")
            .concat(words.reason.as_str())
            .concat("."),
        Some(12) => "No action is required. Subscribe again if you want to continue using the service.".to_string(),
        Some(13) => "No action is required. Subscribe again to continue using the service.".to_string(),
        Some(14) => "The ASP must approve the refund or request an evaluation before ".to_string()
            .concat(time_text(&times.response_deadline))
            .concat(". If no action is taken by the deadline, the system will approve the refund automatically."),
        Some(15) => "No action is required. The current-period fee of ".to_string()
            .concat(words.amount.as_str())
            .concat(" ")
            .concat(words.token.as_str())
            .concat(" will be returned automatically to the wallet."),
        Some(16) => "Evaluators must finish voting before ".to_string()
            .concat(time_text(&times.voting_deadline))
            .concat(". The platform will handle the current-period fee according to the result."),
        Some(17) => "The current-period fee of ".to_string()
            .concat(words.amount.as_str())
            .concat(" ")
            .concat(words.token.as_str())
            .concat(" will be returned automatically to the wallet."),
        Some(18) => "The current-period fee will not be refunded; the system will settle it to the ASP automatically.".to_string(),
        _ => plain_action_text(phase, auto_renew).to_string(),
    }
}

} // verus!
