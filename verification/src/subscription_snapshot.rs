//! Snapshots and displays of subscriptions.

use vstd::prelude::*;
use vstd::string::StringExecFns;

use crate::deadline;
use crate::deadline::{timestamp_has_passed, timestamp_is_future, utc_now_seconds, utc_now_text};
use crate::display;
use crate::display::{node, DisplayView, LifecycleDisplay, LifecycleDisplayNode, NodeView};
use crate::events;
use crate::events::{is_text, EventView, LifecycleEvent};
use crate::json;
use crate::json::{detail_i64, detail_string, Json, JsonView};
use crate::phase::{LifecycleConfidence, LifecyclePhase};
use crate::subscription;
use crate::subscription::{
    charge_words, local_moments, subscription_milestones, subscription_moments,
    subscription_next_action, subscription_phase, subscription_responsible_party,
    subscription_status_label, subscription_template_number_at, MomentsView, SubscriptionMilestones,
    SubscriptionMilestonesView, SubscriptionMoments,
};
use crate::text;
use crate::text::{as_deref, chars_of, i64_to_text, trim};

verus! {

/// Said of a closure that is on its way.
pub const CLOSE_PENDING_NOTICE: &'static str =
    "The close request is already submitted. Do not submit another close request while reconciliation is pending.";

/// What the notice on ratings calls a subscription.
pub const RATED_NOUN: &'static str = "task";

/// A decimal amount above zero.
pub open spec fn is_positive_amount(s: Seq<char>) -> bool {
    &&& forall|i: int| 0 <= i < s.len() ==> text::is_digit(#[trigger] s[i]) || s[i] == '.'
    &&& forall|i: int, j: int|
        0 <= i < j < s.len() ==> !(#[trigger] s[i] == '.' && #[trigger] s[j] == '.')
    &&& exists|i: int| 0 <= i < s.len() && '1' <= #[trigger] s[i] <= '9'
}

fn amount_is_positive(s: &str) -> (r: bool)
    ensures
        r == is_positive_amount(s@),
{
    let chars = chars_of(s);
    let mut positive = false;
    let mut point: Option<usize> = None;
    let mut i: usize = 0;
    while i < chars.len()
        invariant
            i <= chars.len(),
            chars@ == s@,
            forall|k: int| 0 <= k < i ==> text::is_digit(#[trigger] s@[k]) || s@[k] == '.',
            match point {
                Some(p) => p < i && s@[p as int] == '.' && forall|k: int|
                    0 <= k < i && k != p ==> #[trigger] s@[k] != '.',
                None => forall|k: int| 0 <= k < i ==> #[trigger] s@[k] != '.',
            },
            positive <==> exists|k: int| 0 <= k < i && '1' <= #[trigger] s@[k] <= '9',
        decreases chars.len() - i,
    {
        let c = chars[i];
        if c == '.' {
            if let Some(p) = point {
                assert(s@[p as int] == '.' && s@[i as int] == '.');
                return false;
            }
            point = Some(i);
        } else if !('0' <= c && c <= '9') {
            assert(!text::is_digit(s@[i as int]));
            return false;
        } else if c != '0' {
            assert('1' <= s@[i as int] <= '9');
            positive = true;
        }
        i = i + 1;
    }
    positive
}

/// Whether the detail of a failed paid subscription shows that it was settled by
/// a refund: it is not a trial, and states what was paid.
pub open spec fn settlement_confirmed(
    detail: JsonView,
    status: Option<i64>,
    trial_type: Option<i64>,
) -> bool {
    &&& status == Some(9i64)
    &&& trial_type == Some(0i64)
    &&& json::text_at(detail, "paymentTokenAmount"@) matches Some(amount) && is_positive_amount(
        text::trimmed(amount),
    )
    &&& json::text_at(detail, "paymentTokenSymbol"@) is Some
}

/// Whether a refund is proven: never for a trial, and only by the detail, which
/// shows the settlement or states the time and the transaction of the refund.
pub open spec fn is_refund_proven(
    detail: JsonView,
    status: Option<i64>,
    trial_type: Option<i64>,
) -> bool {
    trial_type != Some(1i64) && (settlement_confirmed(detail, status, trial_type) || (
    refund_time_of(detail) is Some && refund_hash_of(detail) is Some))
}

/// The time of the refund that a detail states.
pub open spec fn refund_time_of(detail: JsonView) -> Option<Seq<char>> {
    json::first_text(detail, seq!["refundedAt"@, "refundTime"@])
}

/// The transaction of the refund that a detail states.
pub open spec fn refund_hash_of(detail: JsonView) -> Option<Seq<char>> {
    json::first_text(detail, seq!["refundTxHash"@, "refundTransactionHash"@])
}

fn refund_hash(detail: &Json) -> (r: Option<String>)
    ensures
        text::opt_view(r) == refund_hash_of(detail@),
{
    detail_string(detail, &["refundTxHash", "refundTransactionHash"])
}

/// Whether the detail of a failed paid subscription shows that it was settled by
/// a refund.
pub fn authoritative_refund_settlement_confirmed(
    detail: &Json,
    status: Option<i64>,
    trial_type: Option<i64>,
) -> (r: bool)
    ensures
        r == settlement_confirmed(detail@, status, trial_type),
{
    let failed = match status {
        Some(code) => code == 9,
        None => false,
    };
    let formal = match trial_type {
        Some(kind) => kind == 0,
        None => false,
    };
    if !failed || !formal || detail.text_at("paymentTokenSymbol").is_none() {
        return false;
    }
    match detail.text_at("paymentTokenAmount") {
        Some(amount) => amount_is_positive(trim(amount.as_str())),
        None => false,
    }
}

/// What the state of a subscription comes to at a time.
#[derive(Debug, Clone, Copy, PartialEq, Eq, Structural)]
pub struct SubscriptionState {
    pub status: Option<i64>,
    pub trial_type: Option<i64>,
    pub auto_renew: Option<i64>,
    pub refund_proven: bool,
    pub phase: LifecyclePhase,
    pub template_number: Option<u8>,
    pub close_pending: bool,
}

/// The status of a subscription.
pub open spec fn subscription_status_at(detail: JsonView) -> Option<i64> {
    json::first_int(detail, seq!["status"@, "subStatus"@])
}

/// Whether a renewing subscription is past its period, but not past its grace.
pub open spec fn is_in_grace(
    status: Option<i64>,
    auto_renew: Option<i64>,
    m: SubscriptionMilestonesView,
    now: i64,
) -> bool {
    &&& status == Some(1i64)
    &&& auto_renew == Some(1i64)
    &&& deadline::has_passed(m.current_period_ends_at, now)
    &&& deadline::is_future(m.grace_period_ends_at, now)
}

/// What the state of a subscription comes to at a time.
pub open spec fn state_of(
    detail: JsonView,
    events: Seq<EventView>,
    user_close_submitted: bool,
    now: i64,
) -> SubscriptionState {
    let status = subscription_status_at(detail);
    let trial_type = json::int_at(detail, "trialType"@);
    let auto_renew = json::int_at(detail, "autoRenew"@);
    let m = subscription::subscription_milestones_of(detail, events);
    let refund_proven = is_refund_proven(detail, status, trial_type);
    let in_grace = is_in_grace(status, auto_renew, m, now);
    SubscriptionState {
        status,
        trial_type,
        auto_renew,
        refund_proven,
        phase: subscription::subscription_phase_of(status, trial_type, in_grace, refund_proven),
        template_number: subscription::template_of(
            status,
            trial_type,
            auto_renew,
            in_grace,
            refund_proven,
            m,
            events,
            user_close_submitted,
            now,
        ),
        close_pending: status == Some(0i64) && user_close_submitted,
    }
}

/// What the state of a subscription comes to at a time. `milestones` are those of
/// the detail and the events.
fn subscription_state_at(
    detail: &Json,
    milestones: &SubscriptionMilestones,
    events: &[LifecycleEvent],
    user_close_submitted: bool,
    now: i64,
) -> (r: SubscriptionState)
    requires
        milestones@ == subscription::subscription_milestones_of(
            detail@,
            events::events_view(events@),
        ),
    ensures
        r == state_of(detail@, events::events_view(events@), user_close_submitted, now),
{
    let status = detail_i64(detail, &["status", "subStatus"]);
    let trial_type = detail.int_at("trialType");
    let auto_renew = detail.int_at("autoRenew");
    let is_trial = match trial_type {
        Some(kind) => kind == 1,
        None => false,
    };
    let refund_proven = !is_trial && (authoritative_refund_settlement_confirmed(
        detail,
        status,
        trial_type,
    ) || (milestones.refunded_at.is_some() && refund_hash(detail).is_some()));
    let active = match status {
        Some(code) => code == 1,
        None => false,
    };
    let renews = match auto_renew {
        Some(flag) => flag == 1,
        None => false,
    };
    let in_grace = active && renews && timestamp_has_passed(
        as_deref(&milestones.current_period_ends_at),
        now,
    ) && timestamp_is_future(as_deref(&milestones.grace_period_ends_at), now);
    let created = match status {
        Some(code) => code == 0,
        None => false,
    };
    SubscriptionState {
        status,
        trial_type,
        auto_renew,
        refund_proven,
        phase: subscription_phase(status, trial_type, in_grace, refund_proven),
        template_number: subscription_template_number_at(
            status,
            trial_type,
            auto_renew,
            in_grace,
            refund_proven,
            milestones,
            events,
            user_close_submitted,
            now,
        ),
        close_pending: created && user_close_submitted,
    }
}

/// The words on the state of a subscription.
#[verifier::ext_equal]
pub struct StateWordsView {
    pub label: Seq<char>,
    pub party: Seq<char>,
    pub action: Seq<char>,
}

/// The label of the state of a subscription.
pub open spec fn state_label(state: SubscriptionState) -> Seq<char> {
    if state.close_pending {
        "Subscription closure submitted"@
    } else {
        subscription::subscription_label(state.template_number, state.phase, state.auto_renew)
    }
}

/// The words on the state of a subscription.
pub open spec fn state_words(
    state: SubscriptionState,
    detail: JsonView,
    events: Seq<EventView>,
    times: MomentsView,
) -> StateWordsView {
    StateWordsView {
        label: state_label(state),
        party: if state.close_pending {
            "platform"@
        } else {
            subscription::subscription_party(state.template_number, state.phase)
        },
        action: if state.close_pending {
            "Wait for the subscription lifecycle and wallet order to confirm the closure."@
        } else {
            subscription::subscription_action(
                state.template_number,
                state.phase,
                state.auto_renew,
                subscription::charge_words_of(detail, events),
                times,
            )
        },
    }
}

fn state_label_text(state: SubscriptionState) -> (r: &'static str)
    ensures
        r@ == state_label(state),
{
    if state.close_pending {
        "Subscription closure submitted"
    } else {
        subscription_status_label(state.template_number, state.phase, state.auto_renew)
    }
}

/// How far a stage of a subscription is.
#[derive(Debug, Clone, Copy, PartialEq, Eq, Structural)]
pub enum Mark {
    Done,
    Active,
    Pending,
}

/// The sign of a mark.
pub open spec fn mark_sign(mark: Mark) -> Seq<char> {
    match mark {
        Mark::Done => "✓"@,
        Mark::Active => "▶"@,
        Mark::Pending => "○"@,
    }
}

fn mark_text(mark: Mark) -> (r: &'static str)
    ensures
        r@ == mark_sign(mark),
{
    match mark {
        Mark::Done => "✓",
        Mark::Active => "▶",
        Mark::Pending => "○",
    }
}

/// A stage of a subscription.
pub open spec fn marked(mark: Mark, key: Seq<char>, title: Seq<char>) -> NodeView {
    NodeView { marker: mark_sign(mark), key, title, detail: None }
}

fn marked_node(mark: Mark, key: &str, title: &str) -> (r: LifecycleDisplayNode)
    ensures
        r@ == marked(mark, key@, title@),
{
    node(mark_text(mark), key, title, None)
}

/// The four stages of a subscription that runs its course.
pub open spec fn course(
    created: Mark,
    accepted: Mark,
    service: Mark,
    ended: Mark,
) -> Seq<NodeView> {
    seq![
        marked(
            created,
            "created"@,
            if created == Mark::Active {
                "Task creation in progress"@
            } else {
                "Task creation"@
            },
        ),
        marked(
            accepted,
            "accepted"@,
            match accepted {
                Mark::Active => "ASP acceptance decision pending"@,
                Mark::Done => "ASP accepted"@,
                Mark::Pending => "ASP acceptance"@,
            },
        ),
        marked(
            service,
            "service"@,
            match service {
                Mark::Active => "ASP providing service"@,
                Mark::Done => "ASP provided service"@,
                Mark::Pending => "ASP service"@,
            },
        ),
        marked(ended, "ended"@, "Subscription end"@),
    ]
}

fn course_nodes(created: Mark, accepted: Mark, service: Mark, ended: Mark) -> (r: Vec<
    LifecycleDisplayNode,
>)
    ensures
        display::nodes_view(r@) == course(created, accepted, service, ended),
{
    let creation_title = if created == Mark::Active {
        "Task creation in progress"
    } else {
        "Task creation"
    };
    let acceptance_title = match accepted {
        Mark::Active => "ASP acceptance decision pending",
        Mark::Done => "ASP accepted",
        Mark::Pending => "ASP acceptance",
    };
    let service_title = match service {
        Mark::Active => "ASP providing service",
        Mark::Done => "ASP provided service",
        Mark::Pending => "ASP service",
    };
    let r = vec![
        marked_node(created, "created", creation_title),
        marked_node(accepted, "accepted", acceptance_title),
        marked_node(service, "service", service_title),
        marked_node(ended, "ended", "Subscription end"),
    ];
    assert(display::nodes_view(r@) =~= course(created, accepted, service, ended));
    r
}

/// The three stages of a subscription that closed before its service began.
pub open spec fn closed_early(result: Seq<char>) -> Seq<NodeView> {
    seq![
        marked(Mark::Done, "created"@, "Task creation"@),
        marked(Mark::Done, "pre_service_result"@, result),
        marked(Mark::Done, "closed"@, "Task closed"@),
    ]
}

fn closed_early_nodes(result: &str) -> (r: Vec<LifecycleDisplayNode>)
    ensures
        display::nodes_view(r@) == closed_early(result@),
{
    let r = vec![
        marked_node(Mark::Done, "created", "Task creation"),
        marked_node(Mark::Done, "pre_service_result", result),
        marked_node(Mark::Done, "closed", "Task closed"),
    ];
    assert(display::nodes_view(r@) =~= closed_early(result@));
    r
}

/// The five stages of a subscription with a refund request that is open or not.
pub open spec fn refund_course(open: bool, request: Seq<char>) -> Seq<NodeView> {
    seq![
        marked(Mark::Done, "created"@, "Task creation"@),
        marked(Mark::Done, "accepted"@, "ASP acceptance"@),
        marked(Mark::Done, "service"@, "ASP service provided"@),
        marked(
            if open {
                Mark::Active
            } else {
                Mark::Done
            },
            "refund_or_evaluation"@,
            request,
        ),
        marked(
            if open {
                Mark::Pending
            } else {
                Mark::Done
            },
            "closed"@,
            "Task closed"@,
        ),
    ]
}

fn refund_nodes(open: bool, request: &str) -> (r: Vec<LifecycleDisplayNode>)
    ensures
        display::nodes_view(r@) == refund_course(open, request@),
{
    let request_mark = if open {
        Mark::Active
    } else {
        Mark::Done
    };
    let closed_mark = if open {
        Mark::Pending
    } else {
        Mark::Done
    };
    let r = vec![
        marked_node(Mark::Done, "created", "Task creation"),
        marked_node(Mark::Done, "accepted", "ASP acceptance"),
        marked_node(Mark::Done, "service", "ASP service provided"),
        marked_node(request_mark, "refund_or_evaluation", request),
        marked_node(closed_mark, "closed", "Task closed"),
    ];
    assert(display::nodes_view(r@) =~= refund_course(open, request@));
    r
}

/// The progress of a subscription, and its stages.
#[verifier::ext_equal]
pub struct ProgressView {
    pub step: u8,
    pub total: u8,
    pub timeline: Seq<NodeView>,
}

/// The progress of a subscription, by its approved copy or its phase.
pub open spec fn progress_of(template: Option<u8>, phase: LifecyclePhase) -> ProgressView {
    let done = Mark::Done;
    let active = Mark::Active;
    let pending = Mark::Pending;
    match template {
        Some(1) => ProgressView {
            step: 1,
            total: 4,
            timeline: course(active, pending, pending, pending),
        },
        Some(2) => ProgressView {
            step: 2,
            total: 4,
            timeline: course(done, active, pending, pending),
        },
        Some(3) | Some(4) | Some(5) | Some(11) => ProgressView {
            step: 3,
            total: 4,
            timeline: course(done, done, active, pending),
        },
        Some(6) => ProgressView { step: 3, total: 3, timeline: closed_early("ASP declined"@) },
        Some(7) => ProgressView {
            step: 3,
            total: 3,
            timeline: closed_early("ASP acceptance timed out"@),
        },
        Some(8) => ProgressView { step: 3, total: 3, timeline: closed_early("User closed task"@) },
        Some(9) | Some(10) | Some(12) | Some(13) => ProgressView {
            step: 4,
            total: 4,
            timeline: course(done, done, done, done),
        },
        Some(14) => ProgressView {
            step: 4,
            total: 5,
            timeline: refund_course(true, "Refund request processing"@),
        },
        Some(15) => ProgressView {
            step: 5,
            total: 5,
            timeline: refund_course(false, "Refund request completed"@),
        },
        Some(16) => ProgressView {
            step: 4,
            total: 5,
            timeline: refund_course(true, "Refund request under evaluation"@),
        },
        Some(17) => ProgressView {
            step: 5,
            total: 5,
            timeline: refund_course(false, "Refund request completed (user won)"@),
        },
        Some(18) => ProgressView {
            step: 5,
            total: 5,
            timeline: refund_course(false, "Refund request completed (ASP won)"@),
        },
        _ => if phase == LifecyclePhase::Failed {
            ProgressView { step: 4, total: 4, timeline: course(done, done, done, done) }
        } else if phase == LifecyclePhase::Initializing {
            ProgressView { step: 1, total: 4, timeline: course(active, pending, pending, pending) }
        } else {
            ProgressView { step: 1, total: 4, timeline: course(pending, pending, pending, pending) }
        },
    }
}

fn subscription_progress(template_number: Option<u8>, phase: LifecyclePhase) -> (r: (
    u8,
    u8,
    Vec<LifecycleDisplayNode>,
))
    ensures
        r.0 == progress_of(template_number, phase).step,
        r.1 == progress_of(template_number, phase).total,
        display::nodes_view(r.2@) == progress_of(template_number, phase).timeline,
{
    let done = Mark::Done;
    let active = Mark::Active;
    let pending = Mark::Pending;
    match template_number {
        Some(1) => (1, 4, course_nodes(active, pending, pending, pending)),
        Some(2) => (2, 4, course_nodes(done, active, pending, pending)),
        Some(3) | Some(4) | Some(5) | Some(11) => (
            3,
            4,
            course_nodes(done, done, active, pending),
        ),
        Some(6) => (3, 3, closed_early_nodes("ASP declined")),
        Some(7) => (3, 3, closed_early_nodes("ASP acceptance timed out")),
        Some(8) => (3, 3, closed_early_nodes("User closed task")),
        Some(9) | Some(10) | Some(12) | Some(13) => (4, 4, course_nodes(done, done, done, done)),
        Some(14) => (4, 5, refund_nodes(true, "Refund request processing")),
        Some(15) => (5, 5, refund_nodes(false, "Refund request completed")),
        Some(16) => (4, 5, refund_nodes(true, "Refund request under evaluation")),
        Some(17) => (5, 5, refund_nodes(false, "Refund request completed (user won)")),
        Some(18) => (5, 5, refund_nodes(false, "Refund request completed (ASP won)")),
        _ => {
            if phase == LifecyclePhase::Failed {
                (4, 4, course_nodes(done, done, done, done))
            } else if phase == LifecyclePhase::Initializing {
                (1, 4, course_nodes(active, pending, pending, pending))
            } else {
                (1, 4, course_nodes(pending, pending, pending, pending))
            }
        },
    }
}

/// The name of the approved copy.
pub open spec fn template_name(template: Option<u8>) -> Option<Seq<char>> {
    match template {
        Some(n) => Some("Sub-Status-"@ + text::decimal(n as int)),
        None => None,
    }
}

/// The choices that the user has.
pub open spec fn choices_of(template: Option<u8>) -> Seq<Seq<char>> {
    if template == Some(2u8) {
        seq!["Continue waiting for ASP acceptance"@, "Close task"@]
    } else {
        Seq::empty()
    }
}

/// The notice on ratings, where a rating is in place.
pub open spec fn rating_notice(template: Option<u8>) -> Option<Seq<char>> {
    match template {
        Some(3) | Some(4) | Some(5) | Some(13) | Some(17) | Some(18) => Some(
            "To rate this "@ + RATED_NOUN@ + ", reply \"Rate job\"."@,
        ),
        _ => None,
    }
}

/// The display of a subscription.
pub open spec fn subscription_display_of(
    phase: LifecyclePhase,
    template: Option<u8>,
    current_summary: Seq<char>,
    handled_by: Seq<char>,
    next: Seq<char>,
) -> DisplayView {
    let progress = progress_of(template, phase);
    DisplayView {
        template_id: template_name(template),
        progress_step: progress.step,
        progress_total: progress.total,
        deliverable_available: false,
        review_ready: false,
        timeline: progress.timeline,
        follow_up: Seq::empty(),
        choices: choices_of(template),
        current_summary,
        handled_by,
        next,
        notice: rating_notice(template),
    }
}

/// Builds the display of a subscription.
pub fn build_subscription_display(
    phase: LifecyclePhase,
    template_number: Option<u8>,
    current_summary: &str,
    handled_by: &str,
    next: &str,
) -> (r: LifecycleDisplay)
    ensures
        r@ == subscription_display_of(
            phase,
            template_number,
            current_summary@,
            handled_by@,
            next@,
        ),
{
    let (progress_step, progress_total, timeline) = subscription_progress(template_number, phase);
    let choices = match template_number {
        Some(2) => vec![
            "Continue waiting for ASP acceptance".to_string(),
            "Close task".to_string(),
        ],
        _ => Vec::new(),
    };
    let notice = match template_number {
        Some(3) | Some(4) | Some(5) | Some(13) | Some(17) | Some(18) => Some(
            "To rate this ".to_string().concat(RATED_NOUN).concat(", reply \"Rate job\"."),
        ),
        _ => None,
    };
    let template_id = match template_number {
        Some(n) => {
            let digits = i64_to_text(n as i64);
            Some("Sub-Status-".to_string().concat(digits.as_str()))
        },
        None => None,
    };
    let follow_up: Vec<LifecycleDisplayNode> = Vec::new();
    assert(display::nodes_view(follow_up@) =~= Seq::empty());
    assert(events::texts_view(choices@) =~= choices_of(template_number));
    LifecycleDisplay {
        template_id,
        progress_step,
        progress_total,
        deliverable_available: false,
        review_ready: false,
        timeline,
        follow_up,
        choices,
        current_summary: current_summary.to_string(),
        handled_by: handled_by.to_string(),
        next: next.to_string(),
        notice,
    }
}

/// What is known of a subscription.
#[derive(Debug, PartialEq, Eq)]
pub struct SubscriptionLifecycleSnapshot {
    pub job_id: String,
    pub task_type: String,
    pub phase: LifecyclePhase,
    pub status_label: String,
    pub responsible_party: String,
    pub next_action: String,
    pub confidence: LifecycleConfidence,
    pub authoritative_status: String,
    pub status_source: String,
    pub history_available: bool,
    pub history_read_succeeded: bool,
    pub history_event_count: usize,
    pub asp_agent_id: Option<String>,
    pub review_deadline_at: Option<String>,
    pub trial_type: Option<i64>,
    pub auto_renew: Option<i64>,
    pub period_index: Option<i64>,
    pub refund_amount: Option<String>,
    pub refund_token_symbol: Option<String>,
    pub refund_tx_hash: Option<String>,
    pub milestones: SubscriptionMilestones,
    pub events: Vec<LifecycleEvent>,
    pub display: LifecycleDisplay,
    pub synced_at: String,
}

/// The model of what is known of a subscription.
#[verifier::ext_equal]
pub struct SubscriptionSnapshotView {
    pub job_id: Seq<char>,
    pub task_type: Seq<char>,
    pub phase: LifecyclePhase,
    pub status_label: Seq<char>,
    pub responsible_party: Seq<char>,
    pub next_action: Seq<char>,
    pub confidence: LifecycleConfidence,
    pub authoritative_status: Seq<char>,
    pub status_source: Seq<char>,
    pub history_available: bool,
    pub history_read_succeeded: bool,
    pub history_event_count: nat,
    pub asp_agent_id: Option<Seq<char>>,
    pub review_deadline_at: Option<Seq<char>>,
    pub trial_type: Option<i64>,
    pub auto_renew: Option<i64>,
    pub period_index: Option<i64>,
    pub refund_amount: Option<Seq<char>>,
    pub refund_token_symbol: Option<Seq<char>>,
    pub refund_tx_hash: Option<Seq<char>>,
    pub milestones: SubscriptionMilestonesView,
    pub events: Seq<EventView>,
    pub display: DisplayView,
    pub synced_at: Seq<char>,
}

impl View for SubscriptionLifecycleSnapshot {
    type V = SubscriptionSnapshotView;

    open spec fn view(&self) -> SubscriptionSnapshotView {
        SubscriptionSnapshotView {
            job_id: self.job_id@,
            task_type: self.task_type@,
            phase: self.phase,
            status_label: self.status_label@,
            responsible_party: self.responsible_party@,
            next_action: self.next_action@,
            confidence: self.confidence,
            authoritative_status: self.authoritative_status@,
            status_source: self.status_source@,
            history_available: self.history_available,
            history_read_succeeded: self.history_read_succeeded,
            history_event_count: self.history_event_count as nat,
            asp_agent_id: text::opt_view(self.asp_agent_id),
            review_deadline_at: text::opt_view(self.review_deadline_at),
            trial_type: self.trial_type,
            auto_renew: self.auto_renew,
            period_index: self.period_index,
            refund_amount: text::opt_view(self.refund_amount),
            refund_token_symbol: text::opt_view(self.refund_token_symbol),
            refund_tx_hash: text::opt_view(self.refund_tx_hash),
            milestones: self.milestones@,
            events: events::events_view(self.events@),
            display: self.display@,
            synced_at: self.synced_at@,
        }
    }
}

/// The backend key of a subscription status; an unknown code is kept by its
/// number.
pub open spec fn subscription_status_text(status: i64) -> Seq<char> {
    match status {
        -1 => "init"@,
        0 => "created"@,
        1 => "active"@,
        3 => "rejected"@,
        4 => "disputed"@,
        6 => "completed"@,
        7 => "closed"@,
        8 => "expired"@,
        9 => "failed"@,
        _ => "unknown_"@ + text::decimal(status as int),
    }
}

/// The backend key of a subscription status; an unknown code is kept by its
/// number.
pub fn subscription_authoritative_status(status: i64) -> (r: String)
    ensures
        r@ == subscription_status_text(status),
{
    match status {
        -1 => "init".to_string(),
        0 => "created".to_string(),
        1 => "active".to_string(),
        3 => "rejected".to_string(),
        4 => "disputed".to_string(),
        6 => "completed".to_string(),
        7 => "closed".to_string(),
        8 => "expired".to_string(),
        9 => "failed".to_string(),
        _ => {
            let digits = i64_to_text(status);
            "unknown_".to_string().concat(digits.as_str())
        },
    }
}

/// The display of the state of a subscription. While a closure is on its way
/// there is nothing to choose, and a notice says so.
pub open spec fn state_display(state: SubscriptionState, words: StateWordsView) -> DisplayView {
    let drawn = subscription_display_of(
        state.phase,
        state.template_number,
        words.label,
        words.party,
        words.action,
    );
    if state.close_pending {
        DisplayView { choices: Seq::empty(), notice: Some(CLOSE_PENDING_NOTICE@), ..drawn }
    } else {
        drawn
    }
}

/// The snapshot of a subscription at a time, with local times of its moments and
/// the time of reading.
pub open spec fn subscription_snapshot_of(
    job: Seq<char>,
    detail: JsonView,
    events: Seq<EventView>,
    history_read_succeeded: bool,
    user_close_submitted: bool,
    now: i64,
    times: MomentsView,
    synced_at: Seq<char>,
) -> SubscriptionSnapshotView {
    let state = state_of(detail, events, user_close_submitted, now);
    let words = state_words(state, detail, events, times);
    SubscriptionSnapshotView {
        job_id: job,
        task_type: "subscription"@,
        phase: state.phase,
        status_label: words.label,
        responsible_party: words.party,
        next_action: words.action,
        confidence: if state.status is None {
            LifecycleConfidence::Unknown
        } else if events.len() > 0 {
            LifecycleConfidence::Confirmed
        } else {
            LifecycleConfidence::Partial
        },
        authoritative_status: match state.status {
            Some(code) => subscription_status_text(code),
            None => "unavailable"@,
        },
        status_source: "subscription_detail"@,
        history_available: events.len() > 0,
        history_read_succeeded,
        history_event_count: events.len(),
        asp_agent_id: json::first_text(detail, seq!["providerAgentId"@, "aspAgentId"@]),
        review_deadline_at: json::first_text(
            detail,
            seq!["rejectWindowEndsAt"@, "responseDeadline"@, "reviewDeadlineAt"@],
        ),
        trial_type: state.trial_type,
        auto_renew: state.auto_renew,
        period_index: json::int_at(detail, "periodIndex"@),
        refund_amount: json::first_text(detail, seq!["refundAmount"@, "paymentTokenAmount"@]),
        refund_token_symbol: json::first_text(
            detail,
            seq!["refundTokenSymbol"@, "paymentTokenSymbol"@, "tokenSymbol"@],
        ),
        refund_tx_hash: refund_hash_of(detail),
        milestones: subscription::subscription_milestones_of(detail, events),
        events,
        display: state_display(state, words),
        synced_at,
    }
}

/// Builds the snapshot of a subscription at a time, with local times of its
/// moments and the time of reading.
pub fn build_subscription_snapshot_at(
    job_id: &str,
    detail: &Json,
    events: Vec<LifecycleEvent>,
    history_read_succeeded: bool,
    user_close_submitted: bool,
    now: i64,
    times: &SubscriptionMoments,
    synced_at: String,
) -> (r: SubscriptionLifecycleSnapshot)
    ensures
        r@ == subscription_snapshot_of(
            job_id@,
            detail@,
            events::events_view(events@),
            history_read_succeeded,
            user_close_submitted,
            now,
            times@,
            synced_at@,
        ),
{
    let milestones = subscription_milestones(detail, events.as_slice());
    let state = subscription_state_at(
        detail,
        &milestones,
        events.as_slice(),
        user_close_submitted,
        now,
    );
    let words = charge_words(detail, events.as_slice());
    let status_label = state_label_text(state).to_string();
    let responsible_party = if state.close_pending {
        "platform".to_string()
    } else {
        subscription_responsible_party(state.template_number, state.phase).to_string()
    };
    let next_action = if state.close_pending {
        "Wait for the subscription lifecycle and wallet order to confirm the closure.".to_string()
    } else {
        subscription_next_action(
            state.template_number,
            state.phase,
            state.auto_renew,
            &words,
            times,
        )
    };
    let mut display = build_subscription_display(
        state.phase,
        state.template_number,
        status_label.as_str(),
        responsible_party.as_str(),
        next_action.as_str(),
    );
    if state.close_pending {
        display.choices = Vec::new();
        display.notice = Some(CLOSE_PENDING_NOTICE.to_string());
        assert(events::texts_view(display.choices@) =~= Seq::empty());
    }
    let history_available = events.len() > 0;
    SubscriptionLifecycleSnapshot {
        job_id: job_id.to_string(),
        task_type: "subscription".to_string(),
        phase: state.phase,
        status_label,
        responsible_party,
        next_action,
        confidence: if state.status.is_none() {
            LifecycleConfidence::Unknown
        } else if history_available {
            LifecycleConfidence::Confirmed
        } else {
            LifecycleConfidence::Partial
        },
        authoritative_status: match state.status {
            Some(code) => subscription_authoritative_status(code),
            None => "unavailable".to_string(),
        },
        status_source: "subscription_detail".to_string(),
        history_available,
        history_read_succeeded,
        history_event_count: events.len(),
        asp_agent_id: detail_string(detail, &["providerAgentId", "aspAgentId"]),
        review_deadline_at: detail_string(
            detail,
            &["rejectWindowEndsAt", "responseDeadline", "reviewDeadlineAt"],
        ),
        trial_type: state.trial_type,
        auto_renew: state.auto_renew,
        period_index: detail.int_at("periodIndex"),
        refund_amount: detail_string(detail, &["refundAmount", "paymentTokenAmount"]),
        refund_token_symbol: detail_string(
            detail,
            &["refundTokenSymbol", "paymentTokenSymbol", "tokenSymbol"],
        ),
        refund_tx_hash: refund_hash(detail),
        milestones,
        events,
        display,
        synced_at,
    }
}

/// The local times that a snapshot of a subscription may show.
pub open spec fn are_snapshot_times(
    times: MomentsView,
    detail: JsonView,
    events: Seq<EventView>,
) -> bool {
    subscription::are_local_moments(
        times,
        subscription::moments_of(detail, subscription::subscription_milestones_of(detail, events)),
    )
}

/// Whether a snapshot is that of a subscription at some time, with local times
/// as some time zone writes them.
pub open spec fn is_subscription_snapshot_of(
    snapshot: SubscriptionSnapshotView,
    job: Seq<char>,
    detail: JsonView,
    events: Seq<EventView>,
    history_read_succeeded: bool,
    user_close_submitted: bool,
) -> bool {
    deadline::is_instant_text(snapshot.synced_at) && exists|now: i64, times: MomentsView|
        are_snapshot_times(times, detail, events) && snapshot
            == #[trigger] subscription_snapshot_of(
            job,
            detail,
            events,
            history_read_succeeded,
            user_close_submitted,
            now,
            times,
            snapshot.synced_at,
        )
}

/// Builds the snapshot of a subscription now. `user_close_submitted` says that a
/// closure by the user is on record.
pub fn build_subscription_snapshot_with_user_close(
    job_id: &str,
    detail: &Json,
    events: Vec<LifecycleEvent>,
    history_read_succeeded: bool,
    user_close_submitted: bool,
) -> (r: SubscriptionLifecycleSnapshot)
    ensures
        is_subscription_snapshot_of(
            r@,
            job_id@,
            detail@,
            events::events_view(events@),
            history_read_succeeded,
            user_close_submitted,
        ),
{
    let milestones = subscription_milestones(detail, events.as_slice());
    let times = local_moments(&subscription_moments(detail, &milestones));
    build_subscription_snapshot_at(
        job_id,
        detail,
        events,
        history_read_succeeded,
        user_close_submitted,
        utc_now_seconds(),
        &times,
        utc_now_text(),
    )
}

/// Builds the snapshot of a subscription now, with no closure on record.
pub fn build_subscription_snapshot(
    job_id: &str,
    detail: &Json,
    events: Vec<LifecycleEvent>,
    history_read_succeeded: bool,
) -> (r: SubscriptionLifecycleSnapshot)
    ensures
        is_subscription_snapshot_of(
            r@,
            job_id@,
            detail@,
            events::events_view(events@),
            history_read_succeeded,
            false,
        ),
{
    build_subscription_snapshot_with_user_close(
        job_id,
        detail,
        events,
        history_read_succeeded,
        false,
    )
}

/// The short copy on a subscription at a time: its label, which is its summary
/// too.
pub open spec fn copy_at(detail: JsonView, user_close_submitted: bool, now: i64) -> Seq<char> {
    state_label(state_of(detail, Seq::empty(), user_close_submitted, now))
}

/// The label and the summary of a subscription at a time, from its detail alone.
pub fn subscription_status_copy_at(detail: &Json, user_close_submitted: bool, now: i64) -> (r: (
    String,
    String,
))
    ensures
        r.0@ == copy_at(detail@, user_close_submitted, now),
        r.1@ == copy_at(detail@, user_close_submitted, now),
{
    let events: Vec<LifecycleEvent> = Vec::new();
    assert(events::events_view(events@) =~= Seq::empty());
    let milestones = subscription_milestones(detail, events.as_slice());
    let state = subscription_state_at(
        detail,
        &milestones,
        events.as_slice(),
        user_close_submitted,
        now,
    );
    let label = state_label_text(state).to_string();
    let summary = label.clone();
    (label, summary)
}

/// Whether a text is the short copy on a subscription at some time.
pub open spec fn is_copy_at_some_time(
    copy: Seq<char>,
    detail: JsonView,
    user_close_submitted: bool,
) -> bool {
    exists|now: i64| copy == #[trigger] copy_at(detail, user_close_submitted, now)
}

/// The label and the summary of a subscription now, from its detail alone: those
/// that its full snapshot shows.
pub fn subscription_status_copy(detail: &Json, user_close_submitted: bool) -> (r: (String, String))
    ensures
        is_copy_at_some_time(r.0@, detail@, user_close_submitted),
        r.1@ == r.0@,
{
    subscription_status_copy_at(detail, user_close_submitted, utc_now_seconds())
}

/// Whether a subscription detail is that of exactly this job.
pub fn subscription_detail_matches_job(detail: &Json, job_id: &str) -> (r: bool)
    ensures
        r == (json::text_at(detail@, "jobId"@) == Some(job_id@)),
{
    let stated = detail.text_at("jobId");
    is_text(&stated, job_id)
}

} // verus!
