//! Whom a query speaks for, and what a lifecycle query asks for next.

use vstd::prelude::*;

use crate::events;
use crate::events::MessageView;
use crate::history;
use crate::history::CommandRowView;
use crate::identity;
use crate::identity::{ClassificationView, IdentityError};
use crate::json;
use crate::json::JsonView;
use crate::lifecycle;
use crate::lifecycle::{GatheredView, StepView};
use crate::milestones;
use crate::query;
use crate::snapshot;
use crate::snapshot::SnapshotView;
use crate::text;

verus! {

/// A user agent of a wallet is one whose role is the number 1 or the word "user",
/// in any case.
pub proof fn user_agents_have_the_user_role(agent: JsonView, role: JsonView, id: Seq<char>)
    requires
        json::member(agent, "role"@) == Some(role),
    ensures
        identity::is_user_agent(agent, id) <==> json::text_at(agent, "agentId"@) == Some(id) && (
        json::scalar_int(role) == Some(1i64) || (role is Text && text::ascii_lower(role->Text_0)
            == "user"@)),
{
    reveal_strlit("user");
    assert("user"@.len() == 4);
    assert(text::ascii_lower("user"@) =~= "user"@);
}

/// An entry without a role is no user agent.
pub proof fn agents_without_role_are_no_users(agent: JsonView, id: Seq<char>)
    requires
        json::member(agent, "role"@) is None,
    ensures
        !identity::is_user_agent(agent, id),
{
}

/// A requested agent is taken where the wallet has it as a user agent, and no other
/// in its place.
pub proof fn requested_agents_are_not_replaced(
    agents: Seq<JsonView>,
    requested: Seq<char>,
    i: int,
)
    requires
        text::trimmed(requested).len() > 0,
    ensures
        ({
            let selected = identity::selected_user_agent(agents, requested);
            let wanted = text::trimmed(requested);
            &&& 0 <= i < agents.len() && identity::is_user_agent(agents[i], wanted) ==> selected
                == Some(wanted)
            &&& (forall|j: int|
                0 <= j < agents.len() ==> !identity::is_user_agent(#[trigger] agents[j], wanted))
                ==> selected is None
        }),
{
}

/// Where no agent is requested, the first user agent of the wallet is taken.
pub proof fn the_first_user_agent_is_taken(
    agents: Seq<JsonView>,
    requested: Seq<char>,
    i: int,
    id: Seq<char>,
)
    requires
        text::trimmed(requested).len() == 0,
        0 <= i < agents.len(),
        identity::is_user_agent(agents[i], id),
        forall|j: int, other: Seq<char>|
            0 <= j < i ==> !#[trigger] identity::is_user_agent(agents[j], other),
    ensures
        identity::selected_user_agent(agents, requested) == Some(id),
    decreases agents.len(),
{
    if i > 0 {
        let rest = agents.skip(1);
        if json::text_at(agents[0], "agentId"@) is Some {
            assert(!identity::is_user_agent(agents[0], json::text_at(agents[0], "agentId"@)->0));
        }
        assert forall|j: int, other: Seq<char>|
            0 <= j < i - 1 implies !#[trigger] identity::is_user_agent(rest[j], other) by {
            assert(rest[j] == agents[j + 1]);
        }
        assert(rest[i - 1] == agents[i]);
        the_first_user_agent_is_taken(rest, requested, i - 1, id);
    }
}

/// The usable id of an identity is its text under `agentId`, white space aside.
pub proof fn usable_ids_are_trimmed_texts(agent: JsonView, id: Seq<char>)
    ensures
        json::str_at(agent, "agentId"@) == Some(id) && text::trimmed(id).len() > 0
            ==> identity::usable_id(agent) == Some(text::trimmed(id)),
        json::str_at(agent, "agentId"@) == Some(id) && text::trimmed(id).len() == 0
            ==> identity::usable_id(agent) is None,
        json::str_at(agent, "agentId"@) is None ==> identity::usable_id(agent) is None,
{
}

/// Each usable identity counts once, in its order, and no other.
pub proof fn usable_identities_are_counted(earlier: Seq<JsonView>, agent: JsonView)
    ensures
        identity::usable_id(agent) is Some ==> identity::usable(earlier.push(agent))
            == identity::usable(earlier).push(agent),
        identity::usable_id(agent) is None ==> identity::usable(earlier.push(agent))
            == identity::usable(earlier),
        identity::usable(Seq::empty()).len() == 0,
{
    assert(earlier.push(agent).drop_last() =~= earlier);
}

/// One usable identity settles the matter, two or more are ambiguous, and a single
/// entry without a usable id is malformed.
pub proof fn identities_are_classified_by_their_count(agents: Seq<JsonView>)
    ensures
        ({
            let found = identity::usable(agents);
            let class = identity::classified(agents);
            &&& class == ClassificationView::Many <==> found.len() >= 2
            &&& class is One <==> found.len() == 1
            &&& class is One ==> class == ClassificationView::One(identity::usable_id(found[0])->0)
            &&& class == ClassificationView::MalformedSingle <==> found.len() == 0 && agents.len()
                == 1
            &&& class == ClassificationView::Empty <==> found.len() == 0 && agents.len() != 1
        }),
{
}

/// The agent id of a query: the explicit one, else the one found by role, else the
/// only usable one.
pub proof fn ids_are_resolved_in_their_order(
    explicit: Seq<char>,
    by_role: Option<Seq<char>>,
    agents: Seq<JsonView>,
)
    ensures
        ({
            let resolved = identity::resolved_id(explicit, by_role, agents);
            let given = text::trimmed(explicit).len() > 0;
            let found = by_role is Some && text::trimmed(by_role->0).len() > 0;
            &&& given ==> resolved == Some(text::trimmed(explicit))
            &&& !given && found ==> resolved == Some(text::trimmed(by_role->0))
            &&& !given && !found && identity::usable(agents).len() == 1 ==> resolved
                == identity::usable_id(identity::usable(agents)[0])
            &&& !given && !found && identity::usable(agents).len() != 1 ==> resolved is None
        }),
{
    lemma_usable_ids(agents);
}

proof fn lemma_usable_ids(agents: Seq<JsonView>)
    ensures
        forall|i: int|
            0 <= i < identity::usable(agents).len() ==> identity::usable_id(
                #[trigger] identity::usable(agents)[i],
            ) is Some,
    decreases agents.len(),
{
    if agents.len() > 0 {
        lemma_usable_ids(agents.drop_last());
    }
}

/// A command takes a given id as it is, and what a lookup brought only without one.
pub proof fn commands_take_the_given_id(given: Seq<char>, found: Seq<char>)
    ensures
        given.len() > 0 ==> identity::command_id(given, Some(found)) == given
            && identity::command_id(given, None) == given,
        given.len() == 0 ==> identity::command_id(given, Some(found)) == found
            && identity::command_id(given, None).len() == 0,
{
}

/// Where several identities could be meant, the message counts them and lists each
/// with its id and role.
pub proof fn ambiguities_list_every_candidate(
    agents: Seq<JsonView>,
    earlier: Seq<JsonView>,
    agent: JsonView,
)
    ensures
        identity::ambiguity(agents) == "This account has "@ + text::decimal(
            identity::usable(agents).len() as int,
        ) + " identities: "@ + identity::candidate_list(identity::usable(agents))
            + ". Pass --agent-id to choose the identity to query."@,
        identity::usable_id(agent) is Some ==> identity::candidate(agent) == "[agentId="@
            + identity::usable_id(agent)->0 + " role="@ + query::role_key(
            identity::role_code(agent),
        ) + "]"@,
        identity::candidate_list(seq![agent]) == identity::candidate(agent),
        earlier.len() > 0 ==> identity::candidate_list(earlier.push(agent))
            == identity::candidate_list(earlier) + ", "@ + identity::candidate(agent),
        json::member(agent, "role"@) matches Some(role) && json::int_value(role) is Some
            ==> identity::role_code(agent) == json::int_value(json::member(agent, "role"@)->0)->0,
        json::member(agent, "role"@) is None ==> identity::role_code(agent) == 0,
        json::member(agent, "role"@) matches Some(role) && json::int_value(role) is None
            ==> identity::role_code(agent) == 0,
{
    assert(earlier.push(agent).drop_last() =~= earlier);
}

/// What is said where an account has no usable identity.
pub proof fn missing_identities_say_how_to_go_on(error: IdentityError)
    requires
        error is Missing,
    ensures
        error.words()
            == "no agent identity found on this account. Register an identity (route to okx-ai) or pass --agent-id <id> to choose one."@,
{
}

/// The local store is read only for harmless keys, and its messages are those in
/// scope; what could not be read counts as not read.
pub proof fn local_rows_give_the_messages(
    g: GatheredView,
    rows: Seq<CommandRowView>,
)
    ensures
        ({
            let next = lifecycle::with_local_messages(g, Some(rows));
            let without = lifecycle::with_local_messages(g, None);
            let harmless = history::is_lookup_key(g.job_id) && history::is_lookup_key(g.agent_id);
            &&& harmless ==> next.history_read_succeeded && next.messages
                == history::local_messages(rows, g.job_id, g.agent_id)
            &&& !harmless ==> !next.history_read_succeeded && next.messages.len() == 0
            &&& !without.history_read_succeeded && without.messages.len() == 0
            &&& next.detail == g.detail
        }),
{
}

/// The messages of a session come after those of the local store, and a session
/// that was read makes the history read; without one nothing changes.
pub proof fn session_messages_are_added(g: GatheredView, value: JsonView)
    ensures
        ({
            let next = lifecycle::with_session_messages(g, Some(value));
            &&& next.messages == g.messages + history::session_messages(value)
            &&& next.history_read_succeeded
            &&& next.detail == g.detail
            &&& lifecycle::with_session_messages(g, None) == g
        }),
        lifecycle::session_value(None) is None,
        g.detail is None ==> lifecycle::provider_of(g) is None,
        g.detail matches Some(detail) ==> lifecycle::provider_of(g) == milestones::projection(
            detail,
        ).provider_agent_id,
{
}

/// What a lifecycle query does once all histories are read, by the type that the
/// detail states, or else the events.
pub proof fn types_lead_to_these_steps(step: StepView, g: GatheredView, detail: JsonView)
    requires
        g.detail == Some(detail),
        lifecycle::follows_history(step, g),
    ensures
        ({
            let list = events::history_events(g.job_id, g.messages);
            let stated = milestones::projection(detail).job_type;
            let job_type = if stated is Some {
                stated
            } else {
                milestones::latest_job_type(list)
            };
            let known = milestones::projection(detail).status is Some || milestones::latest_status(
                list,
            ) is Some;
            &&& job_type is None || job_type == Some(1i32) ==> step
                == StepView::FetchSubscription(g)
            &&& job_type == Some(0i32) && known ==> step == StepView::CheckDeliverable(g)
            &&& job_type == Some(0i32) && !known ==> step is ShowTask
                && step->ShowTask_0.display.notice == Some(
                "The latest task details do not include a usable current status."@,
            ) && step->ShowTask_0.task_type == "one_time"@
            &&& job_type is Some && job_type != Some(0i32) && job_type != Some(1i32) ==> step
                is ShowTask && step->ShowTask_0.display.notice == Some(
                "The task type could not be confirmed as a one-time task."@,
            ) && step->ShowTask_0.task_type == "unsupported"@
        }),
{
}

/// Without a task detail the subscription is asked for, and then the local record
/// is shown.
pub proof fn missing_details_lead_to_the_record(
    step: StepView,
    g: GatheredView,
    fetched: Option<JsonView>,
)
    requires
        g.detail is None,
    ensures
        lifecycle::follows_history(step, g) ==> step == StepView::FetchSubscription(g),
        lifecycle::follows_subscription(step, g, fetched) ==> step == (if fetched is Some
            && json::text_at(fetched->0, "jobId"@) == Some(g.job_id) {
            StepView::CheckReceipt(g, fetched->0)
        } else {
            StepView::CheckDeliverable(g)
        }),
{
}

/// A subscription detail of the job leads to the subscription; without one, a
/// confirmed subscription is shown as unavailable.
pub proof fn subscription_details_lead_to_these_steps(
    step: StepView,
    g: GatheredView,
    detail: JsonView,
    fetched: Option<JsonView>,
)
    requires
        g.detail == Some(detail),
        lifecycle::follows_subscription(step, g, fetched),
    ensures
        ({
            let own = fetched is Some && json::text_at(fetched->0, "jobId"@) == Some(g.job_id);
            let confirmed = milestones::projection(detail).job_type == Some(1i32);
            &&& own ==> step == StepView::CheckReceipt(g, fetched->0)
            &&& !own && confirmed ==> step is ShowTask && step->ShowTask_0.display.notice == Some(
                "The subscription type was confirmed, but its latest subscription detail is unavailable. Try again later."@,
            ) && step->ShowTask_0.task_type == "subscription"@ && step->ShowTask_0.asp_agent_id
                == milestones::projection(detail).provider_agent_id
            &&& !own && !confirmed ==> lifecycle::settles(step, g)
        }),
{
}

/// A task that is shown as unknown names its job and the reason, and claims no more
/// than its type and its provider.
pub proof fn unknown_tasks_are_shown_as_such(
    step: StepView,
    job: Seq<char>,
    notice: Seq<char>,
    task_type: Seq<char>,
    asp: Option<Seq<char>>,
)
    requires
        lifecycle::shows_unavailable(step, job, notice, task_type, asp),
    ensures
        step is ShowTask,
        step->ShowTask_0.job_id == job,
        step->ShowTask_0.task_type == task_type,
        step->ShowTask_0.asp_agent_id == asp,
        step->ShowTask_0.display.notice == Some(notice),
        step->ShowTask_0.status_label == "Status unavailable"@,
{
}

/// What is said where the wallet could not be confirmed.
pub proof fn unconfirmed_wallets_are_told()
    ensures
        lifecycle::UNCONFIRMED_IDENTITY_NOTICE@
            == "Current wallet identity could not be confirmed, so local task history was not read."@,
{
}

/// Without a task detail, what is shown is what the local record supports.
pub proof fn fallbacks_show_the_record(
    step: StepView,
    job: Seq<char>,
    messages: Seq<MessageView>,
    read: bool,
    deliverable: bool,
)
    requires
        lifecycle::shows_fallback(step, job, messages, read, deliverable),
    ensures
        step is ShowTask,
        exists|found: SnapshotView| #[trigger]
            snapshot::is_fallback_of(found, job, messages, read, deliverable)
                && step->ShowTask_0.phase == found.phase && step->ShowTask_0.status_label
                == found.status_label && step->ShowTask_0.events == found.events,
        step->ShowTask_0.job_id == job,
{
    let found = choose|found: SnapshotView| #[trigger]
        snapshot::is_fallback_of(found, job, messages, read, deliverable) && step
            == StepView::ShowTask(lifecycle::with_fallback_notice(found));
    assert(snapshot::is_fallback_of(found, job, messages, read, deliverable));
}

/// The record that stands in for a detail says so, or that there is none.
pub proof fn fallbacks_say_what_they_are(shown: SnapshotView)
    ensures
        shown.history_available ==> lifecycle::with_fallback_notice(shown).display.notice == Some(
            "Latest task details are unavailable; showing the latest verified local task record."@,
        ),
        !shown.history_available ==> lifecycle::with_fallback_notice(shown).display.notice == Some(
            "Task details and verified local history are unavailable. Try again later."@,
        ),
        lifecycle::with_fallback_notice(shown).phase == shown.phase,
        lifecycle::with_fallback_notice(shown).status_label == shown.status_label,
        lifecycle::with_fallback_notice(shown).display.timeline == shown.display.timeline,
{
}

} // verus!
