//! What the snapshot and the display of a subscription show.

use vstd::prelude::*;

use crate::deadline;
use crate::display::NodeView;
use crate::events::EventView;
use crate::json;
use crate::json::JsonView;
use crate::milestone_laws;
use crate::phase::{LifecycleConfidence, LifecyclePhase};
use crate::subscription;
use crate::subscription::{MomentsView, SubscriptionMilestonesView};
use crate::subscription_snapshot;
use crate::subscription_snapshot::{SubscriptionSnapshotView, SubscriptionState};
use crate::text;

verus! {

/// The moments that a next action names, by the milestones and keys they come
/// from.
pub proof fn moments_come_from_their_keys(detail: JsonView, m: SubscriptionMilestonesView)
    ensures
        ({
            let found = subscription::moments_of(detail, m);
            let first = json::first_text(
                detail,
                seq!["firstChargeAt"@, "nextChargeAt"@, "nextChargeTime"@],
            );
            let cancel = milestone_laws::either(detail, "lastCancelAt"@, "cancelDeadline"@);
            &&& found.accept_deadline == m.accept_deadline_at
            &&& found.trial_end == m.trial_ends_at
            &&& found.first_charge == (if first is Some {
                first
            } else {
                m.trial_ends_at
            })
            &&& found.last_cancel == (if cancel is Some {
                cancel
            } else {
                m.trial_ends_at
            })
            &&& found.next_charge == (if m.next_charge_at is Some {
                m.next_charge_at
            } else {
                m.current_period_ends_at
            })
            &&& found.period_end == m.current_period_ends_at
            &&& found.grace_end == m.grace_period_ends_at
            &&& found.response_deadline == json::first_text(
                detail,
                seq!["rejectWindowEndsAt"@, "responseDeadline"@, "reviewDeadlineAt"@],
            )
            &&& found.voting_deadline == json::first_text(
                detail,
                seq!["votingDeadline"@, "voteCommitDeadline"@, "reviewDeadlineAt"@],
            )
        }),
{
    milestone_laws::first_of_two_keys(detail, "lastCancelAt"@, "cancelDeadline"@);
}

/// Local times stand for the moments of the same name.
pub proof fn local_moments_keep_their_places(times: MomentsView, found: MomentsView)
    requires
        subscription::are_local_moments(times, found),
    ensures
        deadline::is_time_of(times.accept_deadline, found.accept_deadline),
        deadline::is_time_of(times.trial_end, found.trial_end),
        deadline::is_time_of(times.first_charge, found.first_charge),
        deadline::is_time_of(times.last_cancel, found.last_cancel),
        deadline::is_time_of(times.next_charge, found.next_charge),
        deadline::is_time_of(times.period_end, found.period_end),
        deadline::is_time_of(times.grace_end, found.grace_end),
        deadline::is_time_of(times.response_deadline, found.response_deadline),
        deadline::is_time_of(times.voting_deadline, found.voting_deadline),
{
}

/// What is said of a charge, by the keys it comes from, or that it is not known.
pub proof fn charges_come_from_their_keys(detail: JsonView, list: Seq<EventView>)
    ensures
        ({
            let words = subscription::charge_words_of(detail, list);
            let amount = json::first_text(
                detail,
                seq!["serviceTokenAmount"@, "tokenAmount"@, "paymentTokenAmount"@, "refundAmount"@],
            );
            let token = json::first_text(
                detail,
                seq![
                    "serviceTokenSymbol"@,
                    "tokenSymbol"@,
                    "paymentTokenSymbol"@,
                    "refundTokenSymbol"@,
                ],
            );
            let reason = json::first_text(
                detail,
                seq![
                    "failReason"@,
                    "failReasopn"@,
                    "aspRejectReason"@,
                    "refundReason"@,
                    "reason"@,
                ],
            );
            let told = subscription::latest_reason(list);
            let advice = milestone_laws::either(detail, "nextAction"@, "recommendedAction"@);
            &&& words.amount == (if amount is Some {
                amount->0
            } else {
                "an unavailable amount"@
            })
            &&& words.token == (if token is Some {
                token->0
            } else {
                "an unavailable token"@
            })
            &&& reason is Some ==> words.reason == reason->0
            &&& reason is None && told is Some ==> words.reason == told->0
            &&& reason is None && told is None ==> words.reason == "unavailable"@
            &&& words.advice == (if advice is Some {
                advice->0
            } else {
                "fund the wallet and refresh any required allowance"@
            })
        }),
{
    milestone_laws::first_of_two_keys(detail, "nextAction"@, "recommendedAction"@);
}

/// The reason that a history gives is that of the last event with one.
pub proof fn the_last_reason_counts(earlier: Seq<EventView>, event: EventView)
    ensures
        event.reason is Some ==> subscription::latest_reason(earlier.push(event)) == event.reason,
        event.reason is None ==> subscription::latest_reason(earlier.push(event))
            == subscription::latest_reason(earlier),
        subscription::latest_reason(Seq::empty()) is None,
{
    assert(earlier.push(event).drop_last() =~= earlier);
}

/// Whether a timeline has these stages: sign, key and title of each.
pub open spec fn has_stages(
    timeline: Seq<NodeView>,
    stages: Seq<(Seq<char>, Seq<char>, Seq<char>)>,
) -> bool {
    timeline.len() == stages.len() && forall|i: int|
        0 <= i < stages.len() ==> (#[trigger] timeline[i]) == (NodeView {
            marker: stages[i].0,
            key: stages[i].1,
            title: stages[i].2,
            detail: None,
        })
}

/// How far each approved copy is on its course, and what its stages say.
pub proof fn approved_copies_show_their_stages(phase: LifecyclePhase)
    ensures
        subscription_snapshot::progress_of(Some(1u8), phase).step == 1,
        subscription_snapshot::progress_of(Some(1u8), phase).total == 4,
        has_stages(
            subscription_snapshot::progress_of(Some(1u8), phase).timeline,
            seq![
                ("▶"@, "created"@, "Task creation in progress"@),
                ("○"@, "accepted"@, "ASP acceptance"@),
                ("○"@, "service"@, "ASP service"@),
                ("○"@, "ended"@, "Subscription end"@),
            ],
        ),
        subscription_snapshot::progress_of(Some(2u8), phase).step == 2,
        subscription_snapshot::progress_of(Some(2u8), phase).total == 4,
        has_stages(
            subscription_snapshot::progress_of(Some(2u8), phase).timeline,
            seq![
                ("✓"@, "created"@, "Task creation"@),
                ("▶"@, "accepted"@, "ASP acceptance decision pending"@),
                ("○"@, "service"@, "ASP service"@),
                ("○"@, "ended"@, "Subscription end"@),
            ],
        ),
        subscription_snapshot::progress_of(Some(3u8), phase).step == 3,
        subscription_snapshot::progress_of(Some(3u8), phase).total == 4,
        has_stages(
            subscription_snapshot::progress_of(Some(3u8), phase).timeline,
            seq![
                ("✓"@, "created"@, "Task creation"@),
                ("✓"@, "accepted"@, "ASP accepted"@),
                ("▶"@, "service"@, "ASP providing service"@),
                ("○"@, "ended"@, "Subscription end"@),
            ],
        ),
        subscription_snapshot::progress_of(Some(4u8), phase).step == 3,
        subscription_snapshot::progress_of(Some(4u8), phase).total == 4,
        has_stages(
            subscription_snapshot::progress_of(Some(4u8), phase).timeline,
            seq![
                ("✓"@, "created"@, "Task creation"@),
                ("✓"@, "accepted"@, "ASP accepted"@),
                ("▶"@, "service"@, "ASP providing service"@),
                ("○"@, "ended"@, "Subscription end"@),
            ],
        ),
        subscription_snapshot::progress_of(Some(5u8), phase).step == 3,
        subscription_snapshot::progress_of(Some(5u8), phase).total == 4,
        has_stages(
            subscription_snapshot::progress_of(Some(5u8), phase).timeline,
            seq![
                ("✓"@, "created"@, "Task creation"@),
                ("✓"@, "accepted"@, "ASP accepted"@),
                ("▶"@, "service"@, "ASP providing service"@),
                ("○"@, "ended"@, "Subscription end"@),
            ],
        ),
        subscription_snapshot::progress_of(Some(6u8), phase).step == 3,
        subscription_snapshot::progress_of(Some(6u8), phase).total == 3,
        has_stages(
            subscription_snapshot::progress_of(Some(6u8), phase).timeline,
            seq![
                ("✓"@, "created"@, "Task creation"@),
                ("✓"@, "pre_service_result"@, "ASP declined"@),
                ("✓"@, "closed"@, "Task closed"@),
            ],
        ),
        subscription_snapshot::progress_of(Some(7u8), phase).step == 3,
        subscription_snapshot::progress_of(Some(7u8), phase).total == 3,
        has_stages(
            subscription_snapshot::progress_of(Some(7u8), phase).timeline,
            seq![
                ("✓"@, "created"@, "Task creation"@),
                ("✓"@, "pre_service_result"@, "ASP acceptance timed out"@),
                ("✓"@, "closed"@, "Task closed"@),
            ],
        ),
        subscription_snapshot::progress_of(Some(8u8), phase).step == 3,
        subscription_snapshot::progress_of(Some(8u8), phase).total == 3,
        has_stages(
            subscription_snapshot::progress_of(Some(8u8), phase).timeline,
            seq![
                ("✓"@, "created"@, "Task creation"@),
                ("✓"@, "pre_service_result"@, "User closed task"@),
                ("✓"@, "closed"@, "Task closed"@),
            ],
        ),
        subscription_snapshot::progress_of(Some(9u8), phase).step == 4,
        subscription_snapshot::progress_of(Some(9u8), phase).total == 4,
        has_stages(
            subscription_snapshot::progress_of(Some(9u8), phase).timeline,
            seq![
                ("✓"@, "created"@, "Task creation"@),
                ("✓"@, "accepted"@, "ASP accepted"@),
                ("✓"@, "service"@, "ASP provided service"@),
                ("✓"@, "ended"@, "Subscription end"@),
            ],
        ),
        subscription_snapshot::progress_of(Some(10u8), phase).step == 4,
        subscription_snapshot::progress_of(Some(10u8), phase).total == 4,
        has_stages(
            subscription_snapshot::progress_of(Some(10u8), phase).timeline,
            seq![
                ("✓"@, "created"@, "Task creation"@),
                ("✓"@, "accepted"@, "ASP accepted"@),
                ("✓"@, "service"@, "ASP provided service"@),
                ("✓"@, "ended"@, "Subscription end"@),
            ],
        ),
        subscription_snapshot::progress_of(Some(11u8), phase).step == 3,
        subscription_snapshot::progress_of(Some(11u8), phase).total == 4,
        has_stages(
            subscription_snapshot::progress_of(Some(11u8), phase).timeline,
            seq![
                ("✓"@, "created"@, "Task creation"@),
                ("✓"@, "accepted"@, "ASP accepted"@),
                ("▶"@, "service"@, "ASP providing service"@),
                ("○"@, "ended"@, "Subscription end"@),
            ],
        ),
        subscription_snapshot::progress_of(Some(12u8), phase).step == 4,
        subscription_snapshot::progress_of(Some(12u8), phase).total == 4,
        has_stages(
            subscription_snapshot::progress_of(Some(12u8), phase).timeline,
            seq![
                ("✓"@, "created"@, "Task creation"@),
                ("✓"@, "accepted"@, "ASP accepted"@),
                ("✓"@, "service"@, "ASP provided service"@),
                ("✓"@, "ended"@, "Subscription end"@),
            ],
        ),
        subscription_snapshot::progress_of(Some(13u8), phase).step == 4,
        subscription_snapshot::progress_of(Some(13u8), phase).total == 4,
        has_stages(
            subscription_snapshot::progress_of(Some(13u8), phase).timeline,
            seq![
                ("✓"@, "created"@, "Task creation"@),
                ("✓"@, "accepted"@, "ASP accepted"@),
                ("✓"@, "service"@, "ASP provided service"@),
                ("✓"@, "ended"@, "Subscription end"@),
            ],
        ),
        subscription_snapshot::progress_of(Some(14u8), phase).step == 4,
        subscription_snapshot::progress_of(Some(14u8), phase).total == 5,
        has_stages(
            subscription_snapshot::progress_of(Some(14u8), phase).timeline,
            seq![
                ("✓"@, "created"@, "Task creation"@),
                ("✓"@, "accepted"@, "ASP acceptance"@),
                ("✓"@, "service"@, "ASP service provided"@),
                ("▶"@, "refund_or_evaluation"@, "Refund request processing"@),
                ("○"@, "closed"@, "Task closed"@),
            ],
        ),
        subscription_snapshot::progress_of(Some(15u8), phase).step == 5,
        subscription_snapshot::progress_of(Some(15u8), phase).total == 5,
        has_stages(
            subscription_snapshot::progress_of(Some(15u8), phase).timeline,
            seq![
                ("✓"@, "created"@, "Task creation"@),
                ("✓"@, "accepted"@, "ASP acceptance"@),
                ("✓"@, "service"@, "ASP service provided"@),
                ("✓"@, "refund_or_evaluation"@, "Refund request completed"@),
                ("✓"@, "closed"@, "Task closed"@),
            ],
        ),
        subscription_snapshot::progress_of(Some(16u8), phase).step == 4,
        subscription_snapshot::progress_of(Some(16u8), phase).total == 5,
        has_stages(
            subscription_snapshot::progress_of(Some(16u8), phase).timeline,
            seq![
                ("✓"@, "created"@, "Task creation"@),
                ("✓"@, "accepted"@, "ASP acceptance"@),
                ("✓"@, "service"@, "ASP service provided"@),
                ("▶"@, "refund_or_evaluation"@, "Refund request under evaluation"@),
                ("○"@, "closed"@, "Task closed"@),
            ],
        ),
        subscription_snapshot::progress_of(Some(17u8), phase).step == 5,
        subscription_snapshot::progress_of(Some(17u8), phase).total == 5,
        has_stages(
            subscription_snapshot::progress_of(Some(17u8), phase).timeline,
            seq![
                ("✓"@, "created"@, "Task creation"@),
                ("✓"@, "accepted"@, "ASP acceptance"@),
                ("✓"@, "service"@, "ASP service provided"@),
                ("✓"@, "refund_or_evaluation"@, "Refund request completed (user won)"@),
                ("✓"@, "closed"@, "Task closed"@),
            ],
        ),
        subscription_snapshot::progress_of(Some(18u8), phase).step == 5,
        subscription_snapshot::progress_of(Some(18u8), phase).total == 5,
        has_stages(
            subscription_snapshot::progress_of(Some(18u8), phase).timeline,
            seq![
                ("✓"@, "created"@, "Task creation"@),
                ("✓"@, "accepted"@, "ASP acceptance"@),
                ("✓"@, "service"@, "ASP service provided"@),
                ("✓"@, "refund_or_evaluation"@, "Refund request completed (ASP won)"@),
                ("✓"@, "closed"@, "Task closed"@),
            ],
        ),
{
}

/// Without an approved number, a failed subscription has run its course, one that
/// is being created is at its first stage, and of any other nothing is claimed.
pub proof fn other_subscriptions_show_their_stages(phase: LifecyclePhase)
    ensures
        ({
            let progress = subscription_snapshot::progress_of(None, phase);
            &&& progress.total == 4
            &&& progress.step == (if phase == LifecyclePhase::Failed {
                4u8
            } else {
                1u8
            })
            &&& phase == LifecyclePhase::Failed ==> has_stages(
                progress.timeline,
                seq![
                ("✓"@, "created"@, "Task creation"@),
                ("✓"@, "accepted"@, "ASP accepted"@),
                ("✓"@, "service"@, "ASP provided service"@),
                ("✓"@, "ended"@, "Subscription end"@),
            ],
            )
            &&& phase == LifecyclePhase::Initializing ==> has_stages(
                progress.timeline,
                seq![
                ("▶"@, "created"@, "Task creation in progress"@),
                ("○"@, "accepted"@, "ASP acceptance"@),
                ("○"@, "service"@, "ASP service"@),
                ("○"@, "ended"@, "Subscription end"@),
            ],
            )
            &&& phase != LifecyclePhase::Failed && phase != LifecyclePhase::Initializing
                ==> has_stages(
                progress.timeline,
                seq![
                ("○"@, "created"@, "Task creation"@),
                ("○"@, "accepted"@, "ASP acceptance"@),
                ("○"@, "service"@, "ASP service"@),
                ("○"@, "ended"@, "Subscription end"@),
            ],
            )
        }),
{
}

/// The display of a subscription names its copy, offers choices only before the
/// acceptance, and asks for a rating only where a service was or is rendered.
pub proof fn displays_offer_what_their_copy_allows(
    phase: LifecyclePhase,
    template: Option<u8>,
    summary: Seq<char>,
    handler: Seq<char>,
    next: Seq<char>,
)
    ensures
        ({
            let shown = subscription_snapshot::subscription_display_of(
                phase,
                template,
                summary,
                handler,
                next,
            );
            let progress = subscription_snapshot::progress_of(template, phase);
            &&& template is None ==> shown.template_id is None
            &&& template is Some ==> shown.template_id == Some(
                "Sub-Status-"@ + text::decimal(template->0 as int),
            )
            &&& template == Some(2u8) ==> shown.choices == seq![
                "Continue waiting for ASP acceptance"@,
                "Close task"@,
            ]
            &&& template != Some(2u8) ==> shown.choices.len() == 0
            &&& shown.notice is Some <==> template == Some(3u8) || template == Some(4u8)
                || template == Some(5u8) || template == Some(13u8) || template == Some(17u8)
                || template == Some(18u8)
            &&& shown.notice is Some ==> shown.notice == Some(
                "To rate this "@ + "task"@ + ", reply \"Rate job\"."@,
            )
            &&& shown.current_summary == summary
            &&& shown.handled_by == handler
            &&& shown.next == next
            &&& shown.follow_up.len() == 0
            &&& !shown.review_ready
            &&& shown.timeline == progress.timeline
            &&& shown.progress_step == progress.step
            &&& shown.progress_total == progress.total
        }),
{
}

/// While a closure is on its way, the copy says so and offers nothing to choose;
/// without one, the label, party and action are those of the approved copy.
pub proof fn closures_on_their_way_say_so(
    state: SubscriptionState,
    detail: JsonView,
    list: Seq<EventView>,
    times: MomentsView,
)
    ensures
        ({
            let words = subscription_snapshot::state_words(state, detail, list, times);
            let shown = subscription_snapshot::state_display(state, words);
            &&& state.close_pending ==> words.label == "Subscription closure submitted"@
                && words.party == "platform"@ && words.action
                == "Wait for the subscription lifecycle and wallet order to confirm the closure."@
                && shown.choices.len() == 0 && shown.notice == Some(
                "The close request is already submitted. Do not submit another close request while reconciliation is pending."@,
            )
            &&& !state.close_pending ==> words.label == subscription::subscription_label(
                state.template_number,
                state.phase,
                state.auto_renew,
            ) && words.party == subscription::subscription_party(state.template_number, state.phase)
                && words.action == subscription::subscription_action(
                state.template_number,
                state.phase,
                state.auto_renew,
                subscription::charge_words_of(detail, list),
                times,
            )
            &&& shown.current_summary == words.label
            &&& shown.handled_by == words.party
            &&& shown.next == words.action
        }),
{
}

/// What a snapshot says of a subscription beside its copy, by the keys it comes
/// from.
pub proof fn snapshots_read_their_keys(
    job: Seq<char>,
    detail: JsonView,
    list: Seq<EventView>,
    read: bool,
    closed: bool,
    now: i64,
    times: MomentsView,
    synced_at: Seq<char>,
)
    ensures
        ({
            let shown = subscription_snapshot::subscription_snapshot_of(
                job,
                detail,
                list,
                read,
                closed,
                now,
                times,
                synced_at,
            );
            let state = subscription_snapshot::state_of(detail, list, closed, now);
            &&& shown.job_id == job
            &&& shown.task_type == "subscription"@
            &&& shown.status_source == "subscription_detail"@
            &&& shown.phase == state.phase
            &&& shown.trial_type == json::int_at(detail, "trialType"@)
            &&& shown.auto_renew == json::int_at(detail, "autoRenew"@)
            &&& shown.period_index == json::int_at(detail, "periodIndex"@)
            &&& shown.asp_agent_id == milestone_laws::either(
                detail,
                "providerAgentId"@,
                "aspAgentId"@,
            )
            &&& shown.refund_amount == milestone_laws::either(
                detail,
                "refundAmount"@,
                "paymentTokenAmount"@,
            )
            &&& shown.refund_tx_hash == milestone_laws::either(
                detail,
                "refundTxHash"@,
                "refundTransactionHash"@,
            )
            &&& shown.refund_token_symbol == json::first_text(
                detail,
                seq!["refundTokenSymbol"@, "paymentTokenSymbol"@, "tokenSymbol"@],
            )
            &&& shown.review_deadline_at == json::first_text(
                detail,
                seq!["rejectWindowEndsAt"@, "responseDeadline"@, "reviewDeadlineAt"@],
            )
            &&& shown.events == list
            &&& shown.history_event_count == list.len()
            &&& shown.history_available <==> list.len() > 0
            &&& shown.history_read_succeeded == read
            &&& shown.confidence == LifecycleConfidence::Unknown <==> state.status is None
            &&& shown.confidence == LifecycleConfidence::Confirmed <==> state.status is Some
                && list.len() > 0
            &&& shown.confidence == LifecycleConfidence::Partial <==> state.status is Some
                && list.len() == 0
            &&& shown.milestones == subscription::subscription_milestones_of(detail, list)
            &&& shown.synced_at == synced_at
        }),
{
    milestone_laws::first_of_two_keys(detail, "providerAgentId"@, "aspAgentId"@);
    milestone_laws::first_of_two_keys(detail, "refundAmount"@, "paymentTokenAmount"@);
    milestone_laws::first_of_two_keys(detail, "refundTxHash"@, "refundTransactionHash"@);
}

/// The backend key that a snapshot names is that of the status of the detail.
pub proof fn snapshots_name_their_status(
    job: Seq<char>,
    detail: JsonView,
    list: Seq<EventView>,
    read: bool,
    closed: bool,
    now: i64,
    times: MomentsView,
    synced_at: Seq<char>,
)
    ensures
        ({
            let named = subscription_snapshot::subscription_snapshot_of(
                job,
                detail,
                list,
                read,
                closed,
                now,
                times,
                synced_at,
            ).authoritative_status;
            let code = subscription_snapshot::subscription_status_at(detail);
            &&& code == Some(-1i64) ==> named == "init"@
            &&& code == Some(0i64) ==> named == "created"@
            &&& code == Some(1i64) ==> named == "active"@
            &&& code == Some(3i64) ==> named == "rejected"@
            &&& code == Some(4i64) ==> named == "disputed"@
            &&& code == Some(6i64) ==> named == "completed"@
            &&& code == Some(7i64) ==> named == "closed"@
            &&& code == Some(8i64) ==> named == "expired"@
            &&& code == Some(9i64) ==> named == "failed"@
            &&& code is None ==> named == "unavailable"@
            &&& code is Some && (!(-1 <= code->0 <= 9) || code->0 == 2 || code->0 == 5) ==> named
                == "unknown_"@ + text::decimal(code->0 as int)
        }),
{
}

/// A snapshot that is built now is of its job and detail, at some reading of the
/// clock, with the local times of the moments that the detail gives.
pub proof fn built_snapshots_are_of_their_detail(
    shown: SubscriptionSnapshotView,
    job: Seq<char>,
    detail: JsonView,
    list: Seq<EventView>,
    read: bool,
    closed: bool,
)
    requires
        subscription_snapshot::is_subscription_snapshot_of(
            shown,
            job,
            detail,
            list,
            read,
            closed,
        ),
    ensures
        shown.job_id == job,
        shown.events == list,
        shown.history_read_succeeded == read,
        shown.status_source == "subscription_detail"@,
        deadline::is_instant_text(shown.synced_at),
        exists|now: i64, times: MomentsView|
            subscription::are_local_moments(
                times,
                subscription::moments_of(
                    detail,
                    subscription::subscription_milestones_of(detail, list),
                ),
            ) && shown == #[trigger] subscription_snapshot::subscription_snapshot_of(
                job,
                detail,
                list,
                read,
                closed,
                now,
                times,
                shown.synced_at,
            ),
        json::int_at(detail, "status"@) == Some(1i64) && json::int_at(detail, "trialType"@)
            != Some(1i64) && json::int_at(detail, "autoRenew"@) == Some(0i64)
            ==> shown.status_label == "Subscription active; auto-renewal disabled"@
            && shown.display.current_summary == shown.status_label,
        json::int_at(detail, "status"@) == Some(1i64) && json::int_at(detail, "trialType"@)
            != Some(1i64) && json::int_at(detail, "autoRenew"@) != Some(0i64)
            && subscription::subscription_milestones_of(detail, list).grace_period_ends_at is None
            ==> shown.status_label == "Subscription active; auto-renewal enabled"@
            && shown.display.current_summary == shown.status_label,
{
    let (now, times) = choose|now: i64, times: MomentsView|
        subscription_snapshot::are_snapshot_times(times, detail, list) && shown
            == #[trigger] subscription_snapshot::subscription_snapshot_of(
            job,
            detail,
            list,
            read,
            closed,
            now,
            times,
            shown.synced_at,
        );
    reveal_with_fuel(json::first_int, 2);
    assert(shown == subscription_snapshot::subscription_snapshot_of(
        job,
        detail,
        list,
        read,
        closed,
        now,
        times,
        shown.synced_at,
    ));
}

} // verus!
