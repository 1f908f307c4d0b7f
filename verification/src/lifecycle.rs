//! The read-only lifecycle query of a user: what it needs next, and what it
//! shows. Each step takes what the last request brought.

use vstd::prelude::*;

use crate::events;
use crate::events::{events_from_history, HistoryMessage, MessageView};
use crate::history;
use crate::history::{messages_from_value, read_scoped_local_history, CommandRow, LocalHistoryRead};
use crate::identity;
use crate::identity::select_current_wallet_user_agent;
use crate::json;
use crate::json::{Json, JsonView};
use crate::milestones;
use crate::milestones::{project_task_detail, reconcile_current};
use crate::snapshot;
use crate::snapshot::{
    build_task_snapshot, other_type_label, snapshot_from_local_fallback, unavailable_snapshot,
    LifecycleSnapshot, SnapshotView, LOCAL_RECORD_NOTICE,
};
use crate::subscription_snapshot;
use crate::subscription_snapshot::{
    build_subscription_snapshot_with_user_close, subscription_detail_matches_job,
    SubscriptionLifecycleSnapshot, SubscriptionSnapshotView,
};
use crate::text;

verus! {

/// Said where the identity of the wallet could not be confirmed.
pub const UNCONFIRMED_IDENTITY_NOTICE: &'static str =
    "Current wallet identity could not be confirmed, so local task history was not read.";

/// Said where a subscription has no detail.
pub const MISSING_SUBSCRIPTION_NOTICE: &'static str =
    "The subscription type was confirmed, but its latest subscription detail is unavailable. Try again later.";

/// Said where a task is not known to be a one-time task.
pub const UNCONFIRMED_TYPE_NOTICE: &'static str =
    "The task type could not be confirmed as a one-time task.";

/// Said where a task has no usable status.
pub const MISSING_STATUS_NOTICE: &'static str =
    "The latest task details do not include a usable current status.";

/// Said where neither the task details nor a local record can be had.
pub const NOTHING_AVAILABLE_NOTICE: &'static str =
    "Task details and verified local history are unavailable. Try again later.";

/// What a lifecycle query has gathered.
#[derive(Debug, PartialEq, Eq)]
pub struct Gathered {
    pub job_id: String,
    /// The confirmed user agent of the wallet.
    pub agent_id: String,
    /// The task detail, if it could be fetched.
    pub detail: Option<Json>,
    pub messages: Vec<HistoryMessage>,
    pub history_read_succeeded: bool,
}

/// The model of what a lifecycle query has gathered.
#[verifier::ext_equal]
pub struct GatheredView {
    pub job_id: Seq<char>,
    pub agent_id: Seq<char>,
    pub detail: Option<JsonView>,
    pub messages: Seq<MessageView>,
    pub history_read_succeeded: bool,
}

impl View for Gathered {
    type V = GatheredView;

    open spec fn view(&self) -> GatheredView {
        GatheredView {
            job_id: self.job_id@,
            agent_id: self.agent_id@,
            detail: json::opt_json(self.detail),
            messages: events::messages_view(self.messages@),
            history_read_succeeded: self.history_read_succeeded,
        }
    }
}

/// What a lifecycle query does next.
#[derive(Debug, PartialEq, Eq)]
pub enum LifecycleStep {
    /// Fetch the task detail for the agent.
    FetchTask(Gathered),
    /// Read the local command store for the job and the agent.
    ReadLocal(Gathered),
    /// Read the session history with the provider.
    ReadSession(Gathered, String),
    /// Fetch the subscription detail for the agent.
    FetchSubscription(Gathered),
    /// Check whether a closure of the subscription is on record.
    CheckReceipt(Gathered, Json),
    /// Check whether the deliverable is stored locally.
    CheckDeliverable(Gathered),
    /// Show the snapshot of a one-time task, or of a task that is not known.
    ShowTask(LifecycleSnapshot),
    /// Show the snapshot of a subscription.
    ShowSubscription(SubscriptionLifecycleSnapshot),
}

/// The model of what a lifecycle query does next.
#[verifier::ext_equal]
pub enum StepView {
    FetchTask(GatheredView),
    ReadLocal(GatheredView),
    ReadSession(GatheredView, Seq<char>),
    FetchSubscription(GatheredView),
    CheckReceipt(GatheredView, JsonView),
    CheckDeliverable(GatheredView),
    ShowTask(SnapshotView),
    ShowSubscription(SubscriptionSnapshotView),
}

impl View for LifecycleStep {
    type V = StepView;

    open spec fn view(&self) -> StepView {
        match self {
            LifecycleStep::FetchTask(g) => StepView::FetchTask(g@),
            LifecycleStep::ReadLocal(g) => StepView::ReadLocal(g@),
            LifecycleStep::ReadSession(g, provider) => StepView::ReadSession(g@, provider@),
            LifecycleStep::FetchSubscription(g) => StepView::FetchSubscription(g@),
            LifecycleStep::CheckReceipt(g, detail) => StepView::CheckReceipt(g@, detail@),
            LifecycleStep::CheckDeliverable(g) => StepView::CheckDeliverable(g@),
            LifecycleStep::ShowTask(s) => StepView::ShowTask(s@),
            LifecycleStep::ShowSubscription(s) => StepView::ShowSubscription(s@),
        }
    }
}

/// Whether a step shows that nothing is known of a task, and why.
pub open spec fn shows_unavailable(
    step: StepView,
    job: Seq<char>,
    notice: Seq<char>,
    task_type: Seq<char>,
    asp: Option<Seq<char>>,
) -> bool {
    step matches StepView::ShowTask(shown) && shown == (SnapshotView {
        task_type,
        asp_agent_id: asp,
        ..snapshot::unavailable(job, notice, shown.synced_at)
    }) && crate::deadline::is_instant_text(shown.synced_at)
}

/// Begins a lifecycle query: only for a confirmed user agent of the wallet is
/// anything read.
pub fn begin_lifecycle(job_id: &str, wallet_agents: &[Json], agent_id: &str) -> (r: LifecycleStep)
    ensures
        match identity::selected_user_agent(json::jsons_view(wallet_agents@), agent_id@) {
            Some(id) => r@ == StepView::FetchTask(
                GatheredView {
                    job_id: job_id@,
                    agent_id: id,
                    detail: None,
                    messages: Seq::empty(),
                    history_read_succeeded: false,
                },
            ),
            None => shows_unavailable(
                r@,
                job_id@,
                UNCONFIRMED_IDENTITY_NOTICE@,
                "unknown"@,
                None,
            ),
        },
{
    match select_current_wallet_user_agent(wallet_agents, agent_id) {
        Some(id) => {
            let messages: Vec<HistoryMessage> = Vec::new();
            assert(events::messages_view(messages@) =~= Seq::empty());
            LifecycleStep::FetchTask(
                Gathered {
                    job_id: job_id.to_string(),
                    agent_id: id,
                    detail: None,
                    messages,
                    history_read_succeeded: false,
                },
            )
        },
        None => LifecycleStep::ShowTask(unavailable_snapshot(job_id, UNCONFIRMED_IDENTITY_NOTICE)),
    }
}

/// Takes the task detail, if it could be fetched. The local history is read next,
/// in either case.
pub fn with_task(gathered: Gathered, fetched: Option<Json>) -> (r: LifecycleStep)
    ensures
        r@ == StepView::ReadLocal(
            GatheredView { detail: json::opt_json(fetched), ..gathered@ },
        ),
{
    LifecycleStep::ReadLocal(
        Gathered {
            job_id: gathered.job_id,
            agent_id: gathered.agent_id,
            detail: fetched,
            messages: gathered.messages,
            history_read_succeeded: gathered.history_read_succeeded,
        },
    )
}

/// The events gathered so far.
pub open spec fn gathered_events(g: GatheredView) -> Seq<events::EventView> {
    events::history_events(g.job_id, g.messages)
}

/// What the gathered detail and events say of the current task.
pub open spec fn gathered_current(g: GatheredView) -> milestones::ReconciledView {
    milestones::reconciled(milestones::projection(g.detail->0), gathered_events(g))
}

/// Whether a task with a detail may be a subscription.
pub open spec fn may_be_subscription(g: GatheredView) -> bool {
    match gathered_current(g).job_type {
        Some(n) => n == 1,
        None => true,
    }
}

/// Whether a step is the one that settles a task with a detail which is no
/// subscription: a one-time task with a status goes on to its deliverable, and
/// anything else is shown as not known.
pub open spec fn settles(step: StepView, g: GatheredView) -> bool {
    let current = gathered_current(g);
    let asp = milestones::projection(g.detail->0).provider_agent_id;
    if current.job_type != Some(0i32) {
        shows_unavailable(
            step,
            g.job_id,
            UNCONFIRMED_TYPE_NOTICE@,
            snapshot::other_type_name(current.job_type),
            asp,
        )
    } else if current.status is None {
        shows_unavailable(step, g.job_id, MISSING_STATUS_NOTICE@, "one_time"@, asp)
    } else {
        step == StepView::CheckDeliverable(g)
    }
}

/// Whether a step is the one after all histories are read.
pub open spec fn follows_history(step: StepView, g: GatheredView) -> bool {
    if g.detail is None || may_be_subscription(g) {
        step == StepView::FetchSubscription(g)
    } else {
        settles(step, g)
    }
}

/// Shows that nothing is known of a task, and why.
fn show_unavailable(job_id: &str, notice: &str, task_type: &str, asp: Option<String>) -> (r:
    LifecycleStep)
    ensures
        shows_unavailable(r@, job_id@, notice@, task_type@, text::opt_view(asp)),
{
    let mut snapshot = unavailable_snapshot(job_id, notice);
    snapshot.task_type = task_type.to_string();
    snapshot.asp_agent_id = asp;
    LifecycleStep::ShowTask(snapshot)
}

/// Settles a task with a detail that is no subscription.
fn settle(gathered: Gathered) -> (r: LifecycleStep)
    requires
        gathered.detail is Some,
    ensures
        settles(r@, gathered@),
{
    let (job_type, has_status, asp) = match &gathered.detail {
        Some(detail) => {
            let projected = project_task_detail(detail);
            let events = events_from_history(
                gathered.job_id.as_str(),
                gathered.messages.as_slice(),
            );
            let current = reconcile_current(&projected, events.as_slice());
            (current.job_type, current.status.is_some(), projected.provider_agent_id)
        },
        None => (None, false, None),
    };
    let one_time = match job_type {
        Some(n) => n == 0,
        None => false,
    };
    if !one_time {
        show_unavailable(
            gathered.job_id.as_str(),
            UNCONFIRMED_TYPE_NOTICE,
            other_type_label(job_type),
            asp,
        )
    } else if !has_status {
        show_unavailable(gathered.job_id.as_str(), MISSING_STATUS_NOTICE, "one_time", asp)
    } else {
        LifecycleStep::CheckDeliverable(gathered)
    }
}

/// Goes on after all histories are read.
fn after_history(gathered: Gathered) -> (r: LifecycleStep)
    ensures
        follows_history(r@, gathered@),
{
    let ask = match &gathered.detail {
        Some(detail) => {
            let projected = project_task_detail(detail);
            let events = events_from_history(
                gathered.job_id.as_str(),
                gathered.messages.as_slice(),
            );
            match reconcile_current(&projected, events.as_slice()).job_type {
                Some(n) => n == 1,
                None => true,
            }
        },
        None => true,
    };
    if ask {
        LifecycleStep::FetchSubscription(gathered)
    } else {
        settle(gathered)
    }
}

/// What is gathered with the messages of the local store, if it could be read.
pub open spec fn with_local_messages(
    g: GatheredView,
    rows: Option<Seq<history::CommandRowView>>,
) -> GatheredView {
    let readable = history::is_lookup_key(g.job_id) && history::is_lookup_key(g.agent_id) && rows
        is Some;
    GatheredView {
        messages: if readable {
            history::local_messages(rows->0, g.job_id, g.agent_id)
        } else {
            Seq::empty()
        },
        history_read_succeeded: readable,
        ..g
    }
}

/// The provider with whom there may be a session.
pub open spec fn provider_of(g: GatheredView) -> Option<Seq<char>> {
    match g.detail {
        Some(detail) => milestones::projection(detail).provider_agent_id,
        None => None,
    }
}

/// The model of optional rows.
pub open spec fn opt_rows(rows: Option<&[CommandRow]>) -> Option<Seq<history::CommandRowView>> {
    match rows {
        Some(found) => Some(history::rows_view(found@)),
        None => None,
    }
}

/// Takes the rows of the local store, if they could be read. A session history
/// is read next where the task detail names a provider.
pub fn with_local(gathered: Gathered, rows: Option<&[CommandRow]>) -> (r: LifecycleStep)
    ensures
        ({
            let g = with_local_messages(gathered@, opt_rows(rows));
            match provider_of(g) {
                Some(provider) => r@ == StepView::ReadSession(g, provider),
                None => follows_history(r@, g),
            }
        }),
{
    let local = read_scoped_local_history(
        gathered.job_id.as_str(),
        gathered.agent_id.as_str(),
        rows,
    );
    let provider = match &gathered.detail {
        Some(detail) => project_task_detail(detail).provider_agent_id,
        None => None,
    };
    let next = Gathered {
        job_id: gathered.job_id,
        agent_id: gathered.agent_id,
        detail: gathered.detail,
        messages: local.messages,
        history_read_succeeded: local.read_succeeded,
    };
    match provider {
        Some(id) => LifecycleStep::ReadSession(next, id),
        None => after_history(next),
    }
}

/// What is gathered with the messages of a session, if its history is JSON.
pub open spec fn with_session_messages(g: GatheredView, session: Option<JsonView>) -> GatheredView {
    match session {
        Some(value) => GatheredView {
            messages: g.messages + history::session_messages(value),
            history_read_succeeded: true,
            ..g
        },
        None => g,
    }
}

/// Takes the decoded session history, if there is one.
pub fn with_session_value(gathered: Gathered, session: Option<&Json>) -> (r: LifecycleStep)
    ensures
        follows_history(r@, with_session_messages(gathered@, json::opt_json_ref(session))),
{
    match session {
        Some(value) => {
            let mut added = messages_from_value(value);
            let ghost before = gathered.messages@;
            let ghost more = added@;
            let mut messages = gathered.messages;
            messages.append(&mut added);
            assert(events::messages_view(messages@) =~= events::messages_view(before)
                + events::messages_view(more));
            after_history(
                Gathered {
                    job_id: gathered.job_id,
                    agent_id: gathered.agent_id,
                    detail: gathered.detail,
                    messages,
                    history_read_succeeded: true,
                },
            )
        },
        None => after_history(gathered),
    }
}

/// The value that an optional text writes.
pub open spec fn session_value(raw: Option<Seq<char>>) -> Option<JsonView> {
    match raw {
        Some(t) => json::parsed_json(t),
        None => None,
    }
}

/// Takes the output of a session history, if there is one. What is no JSON is
/// passed over.
pub fn with_session(gathered: Gathered, raw: Option<&str>) -> (r: LifecycleStep)
    ensures
        follows_history(
            r@,
            with_session_messages(gathered@, session_value(text::opt_str_view(raw))),
        ),
{
    match raw {
        Some(output) => match Json::parse(output) {
            Ok(value) => with_session_value(gathered, Some(&value)),
            Err(_) => with_session_value(gathered, None),
        },
        None => with_session_value(gathered, None),
    }
}

/// Whether a fetched subscription detail is that of the job.
pub open spec fn is_of_job(g: GatheredView, fetched: Option<JsonView>) -> bool {
    fetched matches Some(detail) && json::text_at(detail, "jobId"@) == Some(g.job_id)
}

/// Whether a step is the one after a subscription detail was asked for.
pub open spec fn follows_subscription(
    step: StepView,
    g: GatheredView,
    fetched: Option<JsonView>,
) -> bool {
    if is_of_job(g, fetched) {
        step == StepView::CheckReceipt(g, fetched->0)
    } else {
        match g.detail {
            None => step == StepView::CheckDeliverable(g),
            Some(detail) => if milestones::projection(detail).job_type == Some(1i32) {
                shows_unavailable(
                    step,
                    g.job_id,
                    MISSING_SUBSCRIPTION_NOTICE@,
                    "subscription"@,
                    milestones::projection(detail).provider_agent_id,
                )
            } else {
                settles(step, g)
            },
        }
    }
}

/// Takes the subscription detail, if it could be fetched. One of another job
/// counts as none.
pub fn with_subscription(gathered: Gathered, fetched: Option<Json>) -> (r: LifecycleStep)
    ensures
        follows_subscription(r@, gathered@, json::opt_json(fetched)),
{
    if let Some(detail) = fetched {
        if subscription_detail_matches_job(&detail, gathered.job_id.as_str()) {
            return LifecycleStep::CheckReceipt(gathered, detail);
        }
    }
    let (confirmed, asp) = match &gathered.detail {
        Some(detail) => {
            let projected = project_task_detail(detail);
            let confirmed = match projected.job_type {
                Some(n) => n == 1,
                None => false,
            };
            (confirmed, projected.provider_agent_id)
        },
        None => {
            return LifecycleStep::CheckDeliverable(gathered);
        },
    };
    if confirmed {
        show_unavailable(
            gathered.job_id.as_str(),
            MISSING_SUBSCRIPTION_NOTICE,
            "subscription",
            asp,
        )
    } else {
        settle(gathered)
    }
}

/// Takes whether a closure of the subscription is on record, and shows the
/// subscription.
pub fn with_receipt(gathered: Gathered, detail: &Json, user_close_submitted: bool) -> (r:
    LifecycleStep)
    ensures
        r@ matches StepView::ShowSubscription(shown)
            && subscription_snapshot::is_subscription_snapshot_of(
            shown,
            gathered@.job_id,
            detail@,
            gathered_events(gathered@),
            gathered@.history_read_succeeded,
            user_close_submitted,
        ),
{
    let events = events_from_history(gathered.job_id.as_str(), gathered.messages.as_slice());
    LifecycleStep::ShowSubscription(
        build_subscription_snapshot_with_user_close(
            gathered.job_id.as_str(),
            detail,
            events,
            gathered.history_read_succeeded,
            user_close_submitted,
        ),
    )
}

/// The snapshot that stands in for task details, with the notice that says so.
pub open spec fn with_fallback_notice(shown: SnapshotView) -> SnapshotView {
    SnapshotView {
        display: crate::display::DisplayView {
            notice: Some(
                if shown.history_available {
                    LOCAL_RECORD_NOTICE@
                } else {
                    NOTHING_AVAILABLE_NOTICE@
                },
            ),
            ..shown.display
        },
        ..shown
    }
}

/// Whether a step shows what the local record supports.
pub open spec fn shows_fallback(
    step: StepView,
    job: Seq<char>,
    messages: Seq<MessageView>,
    read_succeeded: bool,
    deliverable: bool,
) -> bool {
    exists|found: SnapshotView| #[trigger]
        snapshot::is_fallback_of(found, job, messages, read_succeeded, deliverable) && step
            == StepView::ShowTask(with_fallback_notice(found))
}

/// Takes whether the deliverable is stored locally, and shows the task: by its
/// detail, or by the local record where there is none.
pub fn with_deliverable(gathered: Gathered, deliverable_available: bool) -> (r: LifecycleStep)
    ensures
        match gathered@.detail {
            None => shows_fallback(
                r@,
                gathered@.job_id,
                gathered@.messages,
                gathered@.history_read_succeeded,
                deliverable_available,
            ),
            Some(detail) => {
                let current = gathered_current(gathered@);
                if current.job_type == Some(0i32) && current.status is Some {
                    r@ matches StepView::ShowTask(shown) && snapshot::is_task_snapshot_of(
                        shown,
                        gathered@.job_id,
                        detail,
                        current.status->0,
                        current.status_from_local,
                        gathered@.messages,
                        gathered@.history_read_succeeded,
                        deliverable_available,
                    )
                } else {
                    settles(r@, gathered@)
                }
            },
        },
{
    let detail = match &gathered.detail {
        None => {
            let local = LocalHistoryRead {
                messages: gathered.messages,
                read_succeeded: gathered.history_read_succeeded,
            };
            return show_fallback(gathered.job_id.as_str(), &local, deliverable_available);
        },
        Some(detail) => detail,
    };
    let projected = project_task_detail(detail);
    let events = events_from_history(gathered.job_id.as_str(), gathered.messages.as_slice());
    let current = reconcile_current(&projected, events.as_slice());
    let one_time = match current.job_type {
        Some(n) => n == 0,
        None => false,
    };
    if one_time {
        if let Some(known) = &current.status {
            return LifecycleStep::ShowTask(
                build_task_snapshot(
                    gathered.job_id.as_str(),
                    detail,
                    known,
                    current.status_from_local,
                    gathered.messages.as_slice(),
                    gathered.history_read_succeeded,
                    deliverable_available,
                ),
            );
        }
    }
    settle(gathered)
}

fn show_fallback(job_id: &str, local: &LocalHistoryRead, deliverable_available: bool) -> (r:
    LifecycleStep)
    ensures
        shows_fallback(
            r@,
            job_id@,
            events::messages_view(local.messages@),
            local.read_succeeded,
            deliverable_available,
        ),
{
    let mut found = snapshot_from_local_fallback(job_id, local, deliverable_available);
    let ghost before = found@;
    found.display.notice = Some(
        if found.history_available {
            LOCAL_RECORD_NOTICE.to_string()
        } else {
            NOTHING_AVAILABLE_NOTICE.to_string()
        },
    );
    assert(found@ =~= with_fallback_notice(before));
    assert(snapshot::is_fallback_of(
        before,
        job_id@,
        events::messages_view(local.messages@),
        local.read_succeeded,
        deliverable_available,
    ));
    LifecycleStep::ShowTask(found)
}

/// How far a step is on the way to what is shown.
pub open spec fn rank(step: StepView) -> int {
    match step {
        StepView::FetchTask(_) => 0,
        StepView::ReadLocal(_) => 1,
        StepView::ReadSession(_, _) => 2,
        StepView::FetchSubscription(_) => 3,
        StepView::CheckReceipt(_, _) => 4,
        StepView::CheckDeliverable(_) => 4,
        StepView::ShowTask(_) => 5,
        StepView::ShowSubscription(_) => 5,
    }
}

/// What a step has gathered, unless it shows something.
pub open spec fn carried(step: StepView) -> Option<GatheredView> {
    match step {
        StepView::FetchTask(g) => Some(g),
        StepView::ReadLocal(g) => Some(g),
        StepView::ReadSession(g, _) => Some(g),
        StepView::FetchSubscription(g) => Some(g),
        StepView::CheckReceipt(g, _) => Some(g),
        StepView::CheckDeliverable(g) => Some(g),
        _ => None,
    }
}

/// Every answer leads on towards something that is shown, and every request on
/// the way is for the same job and the same confirmed agent.
pub proof fn answers_lead_to_an_end(
    step: StepView,
    g: GatheredView,
    rows: Option<Seq<history::CommandRowView>>,
    session: Option<JsonView>,
    fetched: Option<JsonView>,
)
    ensures
        with_local_messages(g, rows).agent_id == g.agent_id,
        with_local_messages(g, rows).job_id == g.job_id,
        with_session_messages(g, session).agent_id == g.agent_id,
        with_session_messages(g, session).job_id == g.job_id,
        follows_history(step, g) ==> rank(step) >= 3 && (carried(step) matches Some(next)
            ==> next == g),
        follows_subscription(step, g, fetched) ==> rank(step) >= 4 && (carried(step) matches Some(
            next,
        ) ==> next == g),
{
}

/// Without a confirmed user agent of the wallet nothing is read: the query
/// begins with what it shows. A confirmed agent is the wallet's own.
pub proof fn only_confirmed_agents_are_queried(
    agents: Seq<JsonView>,
    requested: Seq<char>,
    id: Seq<char>,
)
    requires
        identity::selected_user_agent(agents, requested) == Some(id),
    ensures
        identity::owns_user_agent(agents, id),
{
    identity::selected_agents_are_owned(agents, requested);
}

/// A subscription detail of another job is never shown for this one.
pub proof fn foreign_subscriptions_are_not_shown(
    step: StepView,
    g: GatheredView,
    detail: JsonView,
)
    requires
        json::text_at(detail, "jobId"@) != Some(g.job_id),
        follows_subscription(step, g, Some(detail)),
    ensures
        !(step is CheckReceipt),
        !(step is ShowSubscription),
{
}

/// A confirmed subscription is never shown as a one-time task.
pub proof fn subscriptions_are_not_shown_as_tasks(
    step: StepView,
    g: GatheredView,
    detail: JsonView,
    fetched: Option<JsonView>,
)
    requires
        g.detail == Some(detail),
        milestones::projection(detail).job_type == Some(1i32),
    ensures
        follows_history(step, g) ==> step == StepView::FetchSubscription(g),
        follows_subscription(step, g, fetched) ==> (step is CheckReceipt || (
        step matches StepView::ShowTask(shown) && shown.task_type == "subscription"@)),
{
}

} // verus!
