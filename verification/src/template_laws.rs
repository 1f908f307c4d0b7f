//! What the approved copies on subscriptions say, and which state selects them.

use vstd::prelude::*;

use crate::deadline;
use crate::events::{EventView, LifecycleEventKind};
use crate::json;
use crate::json::JsonView;
use crate::milestone_laws;
use crate::phase::LifecyclePhase;
use crate::subscription;
use crate::subscription::{ChargeWordsView, MomentsView, SubscriptionMilestonesView};
use crate::subscription_snapshot;
use crate::text;

verus! {

/// Each approved label is that of one number and of no other.
pub proof fn approved_labels_belong_to_one_number(
    number: u8,
    phase: LifecyclePhase,
    auto_renew: Option<i64>,
)
    requires
        1 <= number <= 18,
    ensures
        ({
            let label = subscription::subscription_label(Some(number), phase, auto_renew);
            &&& label == "Creating subscription task"@ <==> number == 1
            &&& label == "Task created; waiting for ASP acceptance"@ <==> number == 2
            &&& label == "Free trial active"@ <==> number == 3
            &&& label == "Subscription active; auto-renewal enabled"@ <==> number == 4
            &&& label == "Subscription active; auto-renewal disabled"@ <==> number == 5
            &&& label == "ASP declined the task; task closed"@ <==> number == 6
            &&& label == "ASP acceptance deadline passed; task closed automatically"@
                <==> number == 7
            &&& label == "User closed the task"@ <==> number == 8
            &&& label == "Paid subscription did not start; task closed"@ <==> number == 9
            &&& label == "Free trial ended; task closed"@ <==> number == 10
            &&& label == "Renewal payment failed; subscription is in the grace period"@
                <==> number == 11
            &&& label == "Payment was not completed during the grace period; subscription ended"@
                <==> number == 12
            &&& label == "All current service periods ended; subscription completed"@
                <==> number == 13
            &&& label == "Subscription ended; refund request pending"@ <==> number == 14
            &&& label == "Refund completed; task closed"@ <==> number == 15
            &&& label == "Evaluation in progress; waiting for evaluator votes"@ <==> number == 16
            &&& label == "Evaluation completed; user won; task closed"@ <==> number == 17
            &&& label == "Evaluation completed; ASP won; task closed"@ <==> number == 18
        }),
{
    reveal_strlit("Creating subscription task");
    reveal_strlit("Task created; waiting for ASP acceptance");
    reveal_strlit("Free trial active");
    reveal_strlit("Subscription active; auto-renewal enabled");
    reveal_strlit("Subscription active; auto-renewal disabled");
    reveal_strlit("ASP declined the task; task closed");
    reveal_strlit("ASP acceptance deadline passed; task closed automatically");
    reveal_strlit("User closed the task");
    reveal_strlit("Paid subscription did not start; task closed");
    reveal_strlit("Free trial ended; task closed");
    reveal_strlit("Renewal payment failed; subscription is in the grace period");
    reveal_strlit("Payment was not completed during the grace period; subscription ended");
    reveal_strlit("All current service periods ended; subscription completed");
    reveal_strlit("Subscription ended; refund request pending");
    reveal_strlit("Refund completed; task closed");
    reveal_strlit("Evaluation in progress; waiting for evaluator votes");
    reveal_strlit("Evaluation completed; user won; task closed");
    reveal_strlit("Evaluation completed; ASP won; task closed");
    assert("Creating subscription task"@.len() == 26);
    assert("Task created; waiting for ASP acceptance"@.len() == 40);
    assert("Free trial active"@.len() == 17);
    assert("Subscription active; auto-renewal enabled"@.len() == 41);
    assert("Subscription active; auto-renewal disabled"@.len() == 42);
    assert("ASP declined the task; task closed"@.len() == 34);
    assert("ASP acceptance deadline passed; task closed automatically"@.len() == 57);
    assert("User closed the task"@.len() == 20);
    assert("Paid subscription did not start; task closed"@.len() == 44);
    assert("Free trial ended; task closed"@.len() == 29);
    assert("Renewal payment failed; subscription is in the grace period"@.len() == 59);
    assert("Payment was not completed during the grace period; subscription ended"@.len() == 69);
    assert("All current service periods ended; subscription completed"@.len() == 57);
    assert("Subscription ended; refund request pending"@.len() == 42);
    assert("Refund completed; task closed"@.len() == 29);
    assert("Evaluation in progress; waiting for evaluator votes"@.len() == 51);
    assert("Evaluation completed; user won; task closed"@.len() == 43);
    assert("Evaluation completed; ASP won; task closed"@.len() == 42);
    assert("Subscription active; auto-renewal disabled"@[13] != "Subscription ended; refund request pending"@[13]);
    assert("Subscription active; auto-renewal disabled"@[0] != "Evaluation completed; ASP won; task closed"@[0]);
    assert("ASP acceptance deadline passed; task closed automatically"@[1] != "All current service periods ended; subscription completed"@[1]);
    assert("Free trial ended; task closed"@[0] != "Refund completed; task closed"@[0]);
    assert("Subscription ended; refund request pending"@[0] != "Evaluation completed; ASP won; task closed"@[0]);
}

/// The labels of two approved numbers differ, whatever the phase.
pub proof fn approved_labels_differ(
    number: u8,
    other: u8,
    phase: LifecyclePhase,
    other_phase: LifecyclePhase,
    auto_renew: Option<i64>,
    other_renew: Option<i64>,
)
    requires
        1 <= number <= 18,
        1 <= other <= 18,
        number != other,
    ensures
        subscription::subscription_label(Some(number), phase, auto_renew)
            != subscription::subscription_label(Some(other), other_phase, other_renew),
{
    approved_labels_belong_to_one_number(number, phase, auto_renew);
    approved_labels_belong_to_one_number(other, other_phase, other_renew);
}

/// Without an approved number the phase gives the label: each of one phase.
pub proof fn plain_labels_belong_to_their_phases(phase: LifecyclePhase, auto_renew: Option<i64>)
    ensures
        ({
            let label = subscription::subscription_label(None, phase, auto_renew);
            &&& label == "Subscription initializing"@ <==> phase == LifecyclePhase::Initializing
            &&& label == "Waiting for ASP acceptance"@ <==> phase == LifecyclePhase::WaitingForAsp
            &&& label == "Free trial active"@ <==> phase == LifecyclePhase::FreeTrial
            &&& label == "Renewal payment in grace period"@
                <==> phase == LifecyclePhase::RenewalGracePeriod
            &&& label == "Evaluation in progress"@ <==> phase == LifecyclePhase::Disputed
            &&& label == "Subscription completed"@ <==> phase == LifecyclePhase::Completed
            &&& label == "Subscription closed"@ <==> phase == LifecyclePhase::Closed
            &&& label == "Subscription expired"@ <==> phase == LifecyclePhase::Expired
            &&& label == "Refund completed"@ <==> phase == LifecyclePhase::Refunded
            &&& label == "Subscription result needs reconciliation"@
                <==> phase == LifecyclePhase::Failed
            &&& label == "Waiting for user review"@
                <==> phase == LifecyclePhase::WaitingForUserReview
            &&& label == "Status unavailable"@ <==> phase == LifecyclePhase::Unknown
            &&& label == "Waiting for ASP refund decision"@ <==> phase
                == LifecyclePhase::AwaitingAspDecision || phase == LifecyclePhase::Rejected
            &&& label == "Active until the current period ends"@ <==> phase
                == LifecyclePhase::ActiveSubscription && auto_renew == Some(0i64)
            &&& label == "Subscription active"@ <==> phase == LifecyclePhase::AspExecuting || (phase
                == LifecyclePhase::ActiveSubscription && auto_renew != Some(0i64))
        }),
{
    reveal_strlit("Subscription initializing");
    reveal_strlit("Waiting for ASP acceptance");
    reveal_strlit("Free trial active");
    reveal_strlit("Renewal payment in grace period");
    reveal_strlit("Evaluation in progress");
    reveal_strlit("Subscription completed");
    reveal_strlit("Subscription closed");
    reveal_strlit("Subscription expired");
    reveal_strlit("Refund completed");
    reveal_strlit("Subscription result needs reconciliation");
    reveal_strlit("Waiting for user review");
    reveal_strlit("Status unavailable");
    reveal_strlit("Waiting for ASP refund decision");
    reveal_strlit("Active until the current period ends");
    reveal_strlit("Subscription active");
    assert("Subscription initializing"@.len() == 25);
    assert("Waiting for ASP acceptance"@.len() == 26);
    assert("Free trial active"@.len() == 17);
    assert("Renewal payment in grace period"@.len() == 31);
    assert("Evaluation in progress"@.len() == 22);
    assert("Subscription completed"@.len() == 22);
    assert("Subscription closed"@.len() == 19);
    assert("Subscription expired"@.len() == 20);
    assert("Refund completed"@.len() == 16);
    assert("Subscription result needs reconciliation"@.len() == 40);
    assert("Waiting for user review"@.len() == 23);
    assert("Status unavailable"@.len() == 18);
    assert("Waiting for ASP refund decision"@.len() == 31);
    assert("Active until the current period ends"@.len() == 36);
    assert("Subscription active"@.len() == 19);
    assert("Renewal payment in grace period"@[0] != "Waiting for ASP refund decision"@[0]);
    assert("Evaluation in progress"@[0] != "Subscription completed"@[0]);
    assert("Subscription closed"@[13] != "Subscription active"@[13]);
}

/// Who has to act on each approved copy.
pub proof fn approved_parties_belong_to_their_numbers(number: u8, phase: LifecyclePhase)
    requires
        1 <= number <= 18,
    ensures
        ({
            let party = subscription::subscription_party(Some(number), phase);
            &&& party == "platform"@ <==> number == 1
            &&& party == "asp"@ <==> 2 <= number <= 5 || number == 14
            &&& party == "user"@ <==> number == 11
            &&& party == "evaluator"@ <==> number == 16
            &&& party == "none"@ <==> 6 <= number <= 10 || number == 12 || number == 13 || number
                == 15 || number == 17 || number == 18
        }),
{
    reveal_strlit("platform");
    reveal_strlit("asp");
    reveal_strlit("user");
    reveal_strlit("evaluator");
    reveal_strlit("none");
    assert("platform"@.len() == 8);
    assert("asp"@.len() == 3);
    assert("user"@.len() == 4);
    assert("evaluator"@.len() == 9);
    assert("none"@.len() == 4);
    assert("user"@[0] != "none"@[0]);
}

/// Who has to act without an approved number.
pub proof fn plain_parties_belong_to_their_phases(phase: LifecyclePhase)
    ensures
        ({
            let party = subscription::subscription_party(None, phase);
            &&& party == "official"@ <==> phase == LifecyclePhase::Initializing || phase
                == LifecyclePhase::Disputed || phase == LifecyclePhase::Unknown
            &&& party == "user"@ <==> phase == LifecyclePhase::RenewalGracePeriod || phase
                == LifecyclePhase::WaitingForUserReview
            &&& party == "none"@ <==> phase == LifecyclePhase::Completed || phase
                == LifecyclePhase::Closed || phase == LifecyclePhase::Expired || phase
                == LifecyclePhase::Refunded || phase == LifecyclePhase::Failed
            &&& party == "asp"@ <==> phase == LifecyclePhase::WaitingForAsp || phase
                == LifecyclePhase::FreeTrial || phase == LifecyclePhase::ActiveSubscription || phase
                == LifecyclePhase::AwaitingAspDecision || phase == LifecyclePhase::Rejected || phase
                == LifecyclePhase::AspExecuting
        }),
{
    reveal_strlit("official");
    reveal_strlit("asp");
    reveal_strlit("user");
    reveal_strlit("none");
    assert("official"@.len() == 8);
    assert("asp"@.len() == 3);
    assert("user"@.len() == 4);
    assert("none"@.len() == 4);
    assert("user"@[0] != "none"@[0]);
}

/// A time as the next action names it.
pub open spec fn when(time: Option<Seq<char>>) -> Seq<char> {
    if time is Some {
        time->0
    } else {
        "an unavailable time"@
    }
}

/// What each approved copy asks for: what will be charged or returned, and by when
/// something has to happen.
pub proof fn approved_actions_say_what_is_due(
    phase: LifecyclePhase,
    auto_renew: Option<i64>,
    w: ChargeWordsView,
    t: MomentsView,
)
    ensures
        subscription::subscription_action(Some(1u8), phase, auto_renew, w, t)
            == "Wait for subscription task creation to complete."@,
        subscription::subscription_action(Some(2u8), phase, auto_renew, w, t)
            == "Wait for the ASP to accept before "@ + when(t.accept_deadline)
                + ". If the ASP does not respond before the deadline, the task will close automatically and any paid service fee will be returned to the wallet."@,
        subscription::subscription_action(Some(3u8), phase, auto_renew, w, t)
            == "The free trial ends at "@ + when(t.trial_end) + ". The system will charge "@ + w.amount
                + " "@ + w.token + " at "@ + when(t.first_charge)
                + " and convert it to a paid subscription. Cancel before "@ + when(t.last_cancel)
                + " if you do not want to continue."@,
        subscription::subscription_action(Some(4u8), phase, auto_renew, w, t)
            == "The system will automatically charge "@ + w.amount + " "@ + w.token + " at "@ + when(
                t.next_charge,
            ) + ". Keep enough wallet balance and allowance available."@,
        subscription::subscription_action(Some(5u8), phase, auto_renew, w, t)
            == "The current service remains available until "@ + when(t.period_end)
                + " and will then end automatically. Enable auto-renewal before expiry to continue."@,
        subscription::subscription_action(Some(6u8), phase, auto_renew, w, t)
            == "No action is required. A supported free-trial entitlement is unaffected; any paid service fee will be returned automatically when applicable."@,
        subscription::subscription_action(Some(7u8), phase, auto_renew, w, t)
            == "No action is required. A supported free-trial entitlement is unaffected; any paid service fee will be returned automatically when applicable."@,
        subscription::subscription_action(Some(8u8), phase, auto_renew, w, t)
            == "No action is required. A supported free-trial entitlement is unaffected; any paid service fee will be returned automatically when applicable."@,
        subscription::subscription_action(Some(9u8), phase, auto_renew, w, t)
            == "Charge failure reason: "@ + w.reason
                + ". The system will not retry automatically. To continue, "@ + w.advice
                + ", then subscribe again."@,
        subscription::subscription_action(Some(10u8), phase, auto_renew, w, t)
            == "No action is required. The paid subscription did not begin, so no subscription fee will be charged."@,
        subscription::subscription_action(Some(11u8), phase, auto_renew, w, t)
            == "The grace period ends at "@ + when(t.grace_end) + ". Before then, "@ + w.advice
                + ". Service remains active during the grace period and the system will keep retrying; if payment is still incomplete at expiry, the subscription will end automatically. Charge failure reason: "@
                + w.reason + "."@,
        subscription::subscription_action(Some(12u8), phase, auto_renew, w, t)
            == "No action is required. Subscribe again if you want to continue using the service."@,
        subscription::subscription_action(Some(13u8), phase, auto_renew, w, t)
            == "No action is required. Subscribe again to continue using the service."@,
        subscription::subscription_action(Some(14u8), phase, auto_renew, w, t)
            == "The ASP must approve the refund or request an evaluation before "@ + when(
                t.response_deadline,
            )
                + ". If no action is taken by the deadline, the system will approve the refund automatically."@,
        subscription::subscription_action(Some(15u8), phase, auto_renew, w, t)
            == "No action is required. The current-period fee of "@ + w.amount + " "@ + w.token
                + " will be returned automatically to the wallet."@,
        subscription::subscription_action(Some(16u8), phase, auto_renew, w, t)
            == "Evaluators must finish voting before "@ + when(t.voting_deadline)
                + ". The platform will handle the current-period fee according to the result."@,
        subscription::subscription_action(Some(17u8), phase, auto_renew, w, t)
            == "The current-period fee of "@ + w.amount + " "@ + w.token
                + " will be returned automatically to the wallet."@,
        subscription::subscription_action(Some(18u8), phase, auto_renew, w, t)
            == "The current-period fee will not be refunded; the system will settle it to the ASP automatically."@,
{
}

/// What is asked for without an approved number, by the phase.
pub proof fn plain_actions_belong_to_their_phases(
    phase: LifecyclePhase,
    auto_renew: Option<i64>,
    w: ChargeWordsView,
    t: MomentsView,
)
    ensures
        ({
            let action = subscription::subscription_action(None, phase, auto_renew, w, t);
            &&& phase == LifecyclePhase::Initializing ==> action
                == "Wait for on-chain confirmation"@
            &&& phase == LifecyclePhase::WaitingForAsp ==> action
                == "Wait for the ASP to accept the subscription"@
            &&& phase == LifecyclePhase::FreeTrial ==> action
                == "Use the service or cancel before the trial ends if you do not want the first charge"@
            &&& phase == LifecyclePhase::RenewalGracePeriod ==> action
                == "Fund the wallet before the grace period ends so renewal can complete"@
            &&& phase == LifecyclePhase::AwaitingAspDecision || phase == LifecyclePhase::Rejected
                ==> action
                == "Wait for the ASP to approve the refund or request an evaluation"@
            &&& phase == LifecyclePhase::Disputed ==> action
                == "Wait for the evaluation result"@
            &&& phase == LifecyclePhase::WaitingForUserReview ==> action
                == "Review the current delivery"@
            &&& phase == LifecyclePhase::Failed ==> action
                == "Reconcile the final payment or refund result"@
            &&& phase == LifecyclePhase::Completed || phase == LifecyclePhase::Closed
                || phase == LifecyclePhase::Expired || phase == LifecyclePhase::Refunded ==> action
                == "No further subscription action"@
            &&& phase == LifecyclePhase::Unknown ==> action
                == "Try the subscription query again later"@
            &&& phase == LifecyclePhase::ActiveSubscription && auto_renew == Some(0i64) ==> action
                == "Enable auto-renewal before the current period ends to continue the service"@
            &&& (phase == LifecyclePhase::ActiveSubscription && auto_renew != Some(0i64)) || phase
                == LifecyclePhase::AspExecuting ==> action
                == "Continue using the service and keep enough balance for the next renewal"@
        }),
{
}

/// Which state selects which approved copy.
pub proof fn states_select_their_copies(
    status: Option<i64>,
    trial_type: Option<i64>,
    auto_renew: Option<i64>,
    in_grace: bool,
    refund_proven: bool,
    m: SubscriptionMilestonesView,
    list: Seq<EventView>,
    closed: bool,
    now: i64,
)
    ensures
        ({
            let number = subscription::template_of(
                status,
                trial_type,
                auto_renew,
                in_grace,
                refund_proven,
                m,
                list,
                closed,
                now,
            );
            let trial = trial_type == Some(1i64);
            let accepted = m.accepted_at is Some || m.trial_started_at is Some
                || m.current_period_started_at is Some || (exists|i: int|
                0 <= i < list.len() && (#[trigger] list[i]).kind
                    == LifecycleEventKind::SubscriptionCreated);
            let cancelled = closed || (exists|i: int|
                0 <= i < list.len() && (#[trigger] list[i]).kind
                    == LifecycleEventKind::SubscriptionCancelled);
            let disputed = exists|i: int|
                0 <= i < list.len() && ((#[trigger] list[i]).kind
                    == LifecycleEventKind::SubscriptionDisputed || list[i].kind
                    == LifecycleEventKind::DisputeResolved);
            let grace_over = deadline::has_passed(m.grace_period_ends_at, now);
            let active = status == Some(1i64);
            let shut = status == Some(7i64);
            let failed = status == Some(9i64);
            &&& number == Some(1u8) <==> status == Some(-1i64)
            &&& number == Some(2u8) <==> status == Some(0i64)
            &&& number == Some(3u8) <==> active && trial
            &&& number == Some(4u8) <==> active && !trial && !in_grace && auto_renew != Some(0i64)
            &&& number == Some(5u8) <==> active && !trial && !in_grace && auto_renew == Some(0i64)
            &&& number == Some(6u8) <==> shut && !accepted && !cancelled
            &&& number == Some(7u8) <==> status == Some(8i64) && !cancelled
            &&& number == Some(8u8) <==> (status == Some(8i64) || (shut && !accepted)) && cancelled
            &&& number == Some(9u8) <==> failed && !refund_proven && trial
            &&& number == Some(10u8) <==> shut && accepted && trial
            &&& number == Some(11u8) <==> active && !trial && in_grace
            &&& number == Some(12u8) <==> grace_over && !trial && ((shut && accepted) || (failed
                && !refund_proven))
            &&& number == Some(13u8) <==> (status == Some(6i64) && !disputed) || (shut && accepted
                && !trial && !grace_over)
            &&& number == Some(14u8) <==> status == Some(3i64)
            &&& number == Some(15u8) <==> failed && refund_proven && !disputed
            &&& number == Some(16u8) <==> status == Some(4i64)
            &&& number == Some(17u8) <==> failed && refund_proven && disputed
            &&& number == Some(18u8) <==> status == Some(6i64) && disputed
        }),
{
}

/// Which phase a subscription is in.
pub proof fn subscription_phases_belong_to_their_statuses(
    status: Option<i64>,
    trial_type: Option<i64>,
    in_grace: bool,
    refund_proven: bool,
)
    ensures
        ({
            let phase = subscription::subscription_phase_of(
                status,
                trial_type,
                in_grace,
                refund_proven,
            );
            let active = status == Some(1i64);
            let trial = trial_type == Some(1i64);
            &&& phase == LifecyclePhase::Initializing <==> status == Some(-1i64)
            &&& phase == LifecyclePhase::WaitingForAsp <==> status == Some(0i64)
            &&& phase == LifecyclePhase::RenewalGracePeriod <==> active && in_grace
            &&& phase == LifecyclePhase::FreeTrial <==> active && !in_grace && trial
            &&& phase == LifecyclePhase::ActiveSubscription <==> active && !in_grace && !trial
            &&& phase == LifecyclePhase::AwaitingAspDecision <==> status == Some(3i64)
            &&& phase == LifecyclePhase::Disputed <==> status == Some(4i64)
            &&& phase == LifecyclePhase::Completed <==> status == Some(6i64)
            &&& phase == LifecyclePhase::Closed <==> status == Some(7i64)
            &&& phase == LifecyclePhase::Expired <==> status == Some(8i64)
            &&& phase == LifecyclePhase::Refunded <==> status == Some(9i64) && refund_proven
            &&& phase == LifecyclePhase::Failed <==> status == Some(9i64) && !refund_proven
            &&& phase == LifecyclePhase::Unknown <==> !(status matches Some(code) && -1 <= code <= 9
                && code != 2 && code != 5)
        }),
{
}

/// The label of an active subscription outside trial and grace says that it does
/// not renew just where `autoRenew` is zero, and that it renews otherwise.
pub proof fn active_labels_follow_the_renewal(
    job: Seq<char>,
    detail: JsonView,
    list: Seq<EventView>,
    read: bool,
    closed: bool,
    now: i64,
    times: MomentsView,
    synced_at: Seq<char>,
)
    requires
        json::int_at(detail, "status"@) == Some(1i64),
        json::int_at(detail, "trialType"@) != Some(1i64),
        !subscription_snapshot::is_in_grace(
            Some(1i64),
            json::int_at(detail, "autoRenew"@),
            subscription::subscription_milestones_of(detail, list),
            now,
        ),
    ensures
        ({
            let shown = subscription_snapshot::subscription_snapshot_of(
                job,
                detail,
                list,
                read,
                closed,
                now,
                times,
                synced_at,
            );
            let renews = json::int_at(detail, "autoRenew"@) != Some(0i64);
            &&& renews ==> shown.status_label == "Subscription active; auto-renewal enabled"@
            &&& !renews ==> shown.status_label == "Subscription active; auto-renewal disabled"@
            &&& shown.display.current_summary == shown.status_label
            &&& shown.phase == LifecyclePhase::ActiveSubscription
            &&& shown.responsible_party == "asp"@
            &&& shown.display.template_id == Some(
                "Sub-Status-"@ + (if renews {
                    text::decimal(4)
                } else {
                    text::decimal(5)
                }),
            )
        }),
{
    reveal_with_fuel(json::first_int, 2);
}

/// The state of a subscription is read from these keys of its detail, by the
/// clock.
pub proof fn states_read_their_keys(
    detail: JsonView,
    list: Seq<EventView>,
    closed: bool,
    now: i64,
)
    ensures
        ({
            let state = subscription_snapshot::state_of(detail, list, closed, now);
            let m = subscription::subscription_milestones_of(detail, list);
            &&& json::int_at(detail, "status"@) is Some ==> state.status == json::int_at(
                detail,
                "status"@,
            )
            &&& json::int_at(detail, "status"@) is None ==> state.status == json::int_at(
                detail,
                "subStatus"@,
            )
            &&& state.trial_type == json::int_at(detail, "trialType"@)
            &&& state.auto_renew == json::int_at(detail, "autoRenew"@)
            &&& state.close_pending <==> state.status == Some(0i64) && closed
            &&& state.phase == LifecyclePhase::RenewalGracePeriod <==> state.status == Some(1i64)
                && state.auto_renew == Some(1i64) && deadline::has_passed(
                m.current_period_ends_at,
                now,
            ) && deadline::is_future(m.grace_period_ends_at, now)
            &&& state.template_number == Some(11u8) <==> state.status == Some(1i64)
                && state.trial_type != Some(1i64) && state.auto_renew == Some(1i64)
                && deadline::has_passed(m.current_period_ends_at, now) && deadline::is_future(
                m.grace_period_ends_at,
                now,
            )
        }),
{
    reveal_with_fuel(json::first_int, 3);
    assert(seq!["status"@, "subStatus"@].skip(1) =~= seq!["subStatus"@]);
    assert(seq!["subStatus"@].skip(1) =~= Seq::<Seq<char>>::empty());
}

/// A refund is proven for no trial, and otherwise by its time and transaction, or
/// by a positive paid amount with its symbol on a failed paid subscription.
pub proof fn refunds_are_proven_by_the_detail(
    detail: JsonView,
    status: Option<i64>,
    trial_type: Option<i64>,
)
    ensures
        ({
            let proven = subscription_snapshot::is_refund_proven(detail, status, trial_type);
            let time = milestone_laws::either(detail, "refundedAt"@, "refundTime"@);
            let transaction = milestone_laws::either(
                detail,
                "refundTxHash"@,
                "refundTransactionHash"@,
            );
            let amount = json::text_at(detail, "paymentTokenAmount"@);
            let paid = amount is Some && subscription_snapshot::is_positive_amount(
                text::trimmed(amount->0),
            ) && json::text_at(detail, "paymentTokenSymbol"@) is Some;
            proven <==> trial_type != Some(1i64) && ((time is Some && transaction is Some)
                || (status
                == Some(9i64) && trial_type == Some(0i64) && paid))
        }),
{
    milestone_laws::first_of_two_keys(detail, "refundedAt"@, "refundTime"@);
    milestone_laws::first_of_two_keys(detail, "refundTxHash"@, "refundTransactionHash"@);
}

/// An amount is positive just where it is written with digits and at most one point
/// and has a digit other than zero.
pub proof fn positive_amounts_have_a_digit_above_zero(amount: Seq<char>, i: int)
    ensures
        subscription_snapshot::is_positive_amount(amount) && 0 <= i < amount.len() ==> '0'
            <= amount[i] <= '9' || amount[i] == '.',
        (forall|k: int| 0 <= k < amount.len() ==> #[trigger] amount[k] == '0' || amount[k] == '.')
            ==> !subscription_snapshot::is_positive_amount(amount),
        0 <= i < amount.len() && '1' <= amount[i] <= '9' && (forall|k: int|
            0 <= k < amount.len() ==> '0' <= #[trigger] amount[k] <= '9')
            ==> subscription_snapshot::is_positive_amount(amount),
        forall|j: int|
            0 <= i < j < amount.len() && amount[i] == '.' && #[trigger] amount[j] == '.'
                ==> !subscription_snapshot::is_positive_amount(amount),
{
}

/// The milestones that the detail of a subscription states, by their keys; events
/// change none of them.
pub proof fn details_state_subscription_milestones(detail: JsonView, list: Seq<EventView>)
    ensures
        ({
            let m = subscription::subscription_milestones_of(detail, list);
            &&& m.trial_started_at
                == milestone_laws::either(detail, "trialStartTime"@, "trailStartTime"@)
            &&& m.trial_ends_at == milestone_laws::either(detail, "trialEndTime"@, "trailEndTime"@)
            &&& m.current_period_started_at
                == milestone_laws::either(detail, "subStartTime"@, "periodStart"@)
            &&& m.current_period_ends_at
                == milestone_laws::either(detail, "subEndTime"@, "periodEnd"@)
            &&& m.grace_period_ends_at
                == milestone_laws::either(detail, "subBufferEndTime"@, "graceEndsAt"@)
            &&& m.next_charge_at
                == milestone_laws::either(detail, "nextChargeAt"@, "nextChargeTime"@)
            &&& m.refunded_at == milestone_laws::either(detail, "refundedAt"@, "refundTime"@)
            &&& m.expired_at == json::text_at(detail, "expiredAt"@)
            &&& json::text_at(detail, "acceptDeadline"@) is Some ==> m.accept_deadline_at
                == json::text_at(detail, "acceptDeadline"@)
            &&& json::text_at(detail, "acceptDeadline"@) is None ==> m.accept_deadline_at
                == milestone_laws::either(detail, "acceptExpireTime"@, "expireTime"@)
            &&& milestone_laws::either(detail, "createdAt"@, "createTime"@) is Some ==> m.created_at
                == milestone_laws::either(detail, "createdAt"@, "createTime"@)
            &&& milestone_laws::either(detail, "acceptedAt"@, "acceptTime"@) is Some
                ==> m.accepted_at
                == milestone_laws::either(detail, "acceptedAt"@, "acceptTime"@)
            &&& milestone_laws::either(detail, "rejectedAt"@, "rejectTime"@) is Some
                ==> m.rejected_at
                == milestone_laws::either(detail, "rejectedAt"@, "rejectTime"@)
            &&& milestone_laws::either(detail, "disputedAt"@, "disputeTime"@) is Some
                ==> m.disputed_at
                == milestone_laws::either(detail, "disputedAt"@, "disputeTime"@)
            &&& milestone_laws::either(detail, "completedAt"@, "completeTime"@) is Some
                ==> m.completed_at
                == milestone_laws::either(detail, "completedAt"@, "completeTime"@)
            &&& milestone_laws::either(detail, "closedAt"@, "closeTime"@) is Some ==> m.closed_at
                == milestone_laws::either(detail, "closedAt"@, "closeTime"@)
        }),
{
    milestone_laws::first_of_two_keys(detail, "trialStartTime"@, "trailStartTime"@);
    milestone_laws::first_of_two_keys(detail, "trialEndTime"@, "trailEndTime"@);
    milestone_laws::first_of_two_keys(detail, "subStartTime"@, "periodStart"@);
    milestone_laws::first_of_two_keys(detail, "subEndTime"@, "periodEnd"@);
    milestone_laws::first_of_two_keys(detail, "subBufferEndTime"@, "graceEndsAt"@);
    milestone_laws::first_of_two_keys(detail, "nextChargeAt"@, "nextChargeTime"@);
    milestone_laws::first_of_two_keys(detail, "refundedAt"@, "refundTime"@);
    milestone_laws::first_of_two_keys(detail, "createdAt"@, "createTime"@);
    milestone_laws::first_of_two_keys(detail, "acceptedAt"@, "acceptTime"@);
    milestone_laws::first_of_two_keys(detail, "rejectedAt"@, "rejectTime"@);
    milestone_laws::first_of_two_keys(detail, "disputedAt"@, "disputeTime"@);
    milestone_laws::first_of_two_keys(detail, "completedAt"@, "completeTime"@);
    milestone_laws::first_of_two_keys(detail, "closedAt"@, "closeTime"@);
    milestone_laws::first_of_two_keys(detail, "acceptExpireTime"@, "expireTime"@);
    assert(seq!["acceptDeadline"@, "acceptExpireTime"@, "expireTime"@].skip(1)
        =~= seq!["acceptExpireTime"@, "expireTime"@]);
}

/// A first event reaches the milestones of its kind that the detail leaves open.
pub proof fn first_events_reach_subscription_milestones(
    detail: JsonView,
    event: EventView,
    rest: Seq<EventView>,
)
    ensures
        ({
            let m = subscription::subscription_milestones_of(detail, seq![event] + rest);
            let without = subscription::subscription_milestones_of(detail, rest);
            &&& milestone_laws::either(detail, "rejectedAt"@, "rejectTime"@) is None
                ==> m.rejected_at == (if event.kind
                == LifecycleEventKind::SubscriptionDeliveryRejected {
                event.occurred_at
            } else {
                without.rejected_at
            })
            &&& milestone_laws::either(detail, "disputedAt"@, "disputeTime"@) is None
                ==> m.disputed_at == (if event.kind
                == LifecycleEventKind::SubscriptionDisputed {
                event.occurred_at
            } else {
                without.disputed_at
            })
            &&& milestone_laws::either(detail, "completedAt"@, "completeTime"@) is None
                ==> m.completed_at == (if event.kind
                == LifecycleEventKind::SubscriptionCompleted {
                event.occurred_at
            } else {
                without.completed_at
            })
            &&& milestone_laws::either(detail, "closedAt"@, "closeTime"@) is None
                ==> m.closed_at == (if event.kind
                == LifecycleEventKind::SubscriptionClosed {
                event.occurred_at
            } else {
                without.closed_at
            })
            &&& milestone_laws::either(detail, "createdAt"@, "createTime"@) is None ==> m.created_at
                == (if event.kind == LifecycleEventKind::SubscriptionOpened || event.kind
                == LifecycleEventKind::SubscriptionCreated {
                event.occurred_at
            } else {
                without.created_at
            })
            &&& milestone_laws::either(detail, "acceptedAt"@, "acceptTime"@) is None
                ==> m.accepted_at == (if event.kind == LifecycleEventKind::SubscriptionCreated
                || event.kind == LifecycleEventKind::SubscriptionAspSelected {
                event.occurred_at
            } else {
                without.accepted_at
            })
            &&& m.trial_converted_at == (if event.kind
                == LifecycleEventKind::SubscriptionTrialConverted {
                event.occurred_at
            } else {
                without.trial_converted_at
            })
        }),
{
    milestone_laws::first_of_two_keys(detail, "createdAt"@, "createTime"@);
    milestone_laws::first_of_two_keys(detail, "acceptedAt"@, "acceptTime"@);
    milestone_laws::first_of_two_keys(detail, "rejectedAt"@, "rejectTime"@);
    milestone_laws::first_of_two_keys(detail, "disputedAt"@, "disputeTime"@);
    milestone_laws::first_of_two_keys(detail, "completedAt"@, "completeTime"@);
    milestone_laws::first_of_two_keys(detail, "closedAt"@, "closeTime"@);
    lemma_first_event(event, rest, seq![LifecycleEventKind::SubscriptionDeliveryRejected]);
    lemma_first_event(event, rest, seq![LifecycleEventKind::SubscriptionDisputed]);
    lemma_first_event(event, rest, seq![LifecycleEventKind::SubscriptionCompleted]);
    lemma_first_event(event, rest, seq![LifecycleEventKind::SubscriptionClosed]);
    lemma_first_event(event, rest, seq![LifecycleEventKind::SubscriptionOpened, LifecycleEventKind::SubscriptionCreated]);
    lemma_first_event(event, rest, seq![LifecycleEventKind::SubscriptionCreated, LifecycleEventKind::SubscriptionAspSelected]);
    lemma_first_event(event, rest, seq![LifecycleEventKind::SubscriptionTrialConverted]);
    lemma_one_kind(LifecycleEventKind::SubscriptionDeliveryRejected, event.kind);
    lemma_one_kind(LifecycleEventKind::SubscriptionDisputed, event.kind);
    lemma_one_kind(LifecycleEventKind::SubscriptionCompleted, event.kind);
    lemma_one_kind(LifecycleEventKind::SubscriptionClosed, event.kind);
    lemma_one_kind(LifecycleEventKind::SubscriptionTrialConverted, event.kind);
    lemma_two_kinds(
        LifecycleEventKind::SubscriptionOpened,
        LifecycleEventKind::SubscriptionCreated,
        event.kind,
    );
    lemma_two_kinds(
        LifecycleEventKind::SubscriptionCreated,
        LifecycleEventKind::SubscriptionAspSelected,
        event.kind,
    );
}

proof fn lemma_one_kind(kind: LifecycleEventKind, other: LifecycleEventKind)
    ensures
        seq![kind].contains(other) <==> other == kind,
{
    assert(seq![kind][0] == kind);
}

proof fn lemma_two_kinds(
    kind: LifecycleEventKind,
    second: LifecycleEventKind,
    other: LifecycleEventKind,
)
    ensures
        seq![kind, second].contains(other) <==> other == kind || other == second,
{
    assert(seq![kind, second][0] == kind);
    assert(seq![kind, second][1] == second);
}

proof fn lemma_first_event(
    event: EventView,
    rest: Seq<EventView>,
    kinds: Seq<LifecycleEventKind>,
)
    ensures
        subscription::first_event_time(seq![event] + rest, kinds) == (if kinds.contains(
            event.kind,
        ) {
            event.occurred_at
        } else {
            subscription::first_event_time(rest, kinds)
        }),
        subscription::last_event_time(rest.push(event), kinds) == (if kinds.contains(event.kind) {
            event.occurred_at
        } else {
            subscription::last_event_time(rest, kinds)
        }),
{
    assert((seq![event] + rest).skip(1) =~= rest);
    assert(rest.push(event).drop_last() =~= rest);
}

/// A last event moves the latest renewal, warning or cancellation.
pub proof fn last_events_move_the_latest_milestones(
    detail: JsonView,
    earlier: Seq<EventView>,
    event: EventView,
)
    ensures
        ({
            let m = subscription::subscription_milestones_of(detail, earlier.push(event));
            let before = subscription::subscription_milestones_of(detail, earlier);
            &&& m.last_renewed_at == (if event.kind == LifecycleEventKind::SubscriptionRenewed {
                event.occurred_at
            } else {
                before.last_renewed_at
            })
            &&& m.renewal_warning_at == (if event.kind
                == LifecycleEventKind::SubscriptionExpiryWarning {
                event.occurred_at
            } else {
                before.renewal_warning_at
            })
            &&& m.cancellation_requested_at == (if event.kind
                == LifecycleEventKind::SubscriptionCancelled {
                event.occurred_at
            } else {
                before.cancellation_requested_at
            })
        }),
{
    lemma_first_event(event, earlier, seq![LifecycleEventKind::SubscriptionRenewed]);
    lemma_one_kind(LifecycleEventKind::SubscriptionRenewed, event.kind);
    lemma_first_event(event, earlier, seq![LifecycleEventKind::SubscriptionExpiryWarning]);
    lemma_one_kind(LifecycleEventKind::SubscriptionExpiryWarning, event.kind);
    lemma_first_event(event, earlier, seq![LifecycleEventKind::SubscriptionCancelled]);
    lemma_one_kind(LifecycleEventKind::SubscriptionCancelled, event.kind);
}

} // verus!
