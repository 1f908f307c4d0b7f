//! What a row of the active tasks shows, and for which tasks there is one.

use vstd::prelude::*;

use crate::active_listing;
use crate::active_listing::AnswersView;
use crate::active_tasks;
use crate::active_tasks::ActiveTaskKind;
use crate::json;
use crate::json::JsonView;
use crate::query;
use crate::subscription_snapshot;
use crate::text;

verus! {

/// Of two keys, the first that has a plain text gives it.
pub open spec fn plain_either(task: JsonView, key: Seq<char>, other: Seq<char>) -> Seq<char> {
    if json::str_at(task, key) is Some {
        json::str_at(task, key)->0
    } else if json::str_at(task, other) is Some {
        json::str_at(task, other)->0
    } else {
        Seq::empty()
    }
}

/// Of two or three keys, the first that has a plain text gives it.
pub proof fn first_plain_text_counts(
    task: JsonView,
    key: Seq<char>,
    other: Seq<char>,
    third: Seq<char>,
)
    ensures
        json::str_or_empty(task, seq![key, other]) == plain_either(task, key, other),
        json::str_or_empty(task, seq![key, other, third]) == (if json::str_at(task, key) is Some {
            json::str_at(task, key)->0
        } else {
            plain_either(task, other, third)
        }),
{
    reveal_with_fuel(json::first_str, 4);
    assert(seq![key, other].skip(1) =~= seq![other]);
    assert(seq![other].skip(1) =~= Seq::<Seq<char>>::empty());
    assert(seq![key, other, third].skip(1) =~= seq![other, third]);
    assert(seq![other, third].skip(1) =~= seq![third]);
    assert(seq![third].skip(1) =~= Seq::<Seq<char>>::empty());
}

/// To a user the counterparty is the provider that the task states, whatever it
/// says of the buyer; to an ASP it is the buyer, whatever it says of the provider;
/// an evaluator has none.
pub proof fn counterparties_are_the_other_side(
    task: JsonView,
    kind: ActiveTaskKind,
    agent: Seq<char>,
    closed: bool,
    now: i64,
)
    ensures
        ({
            let user_row = active_tasks::row_of(task, kind, agent, 1, closed, now);
            let asp_row = active_tasks::row_of(task, kind, agent, 2, closed, now);
            let provider = plain_either(task, "providerAgentId"@, "aspAgentId"@);
            let buyer = plain_either(task, "buyerAgentId"@, "userAgentId"@);
            &&& provider.len() > 0 ==> user_row.counterparty_agent_id == Some(provider)
            &&& provider.len() == 0 ==> user_row.counterparty_agent_id is None
            &&& user_row.counterparty_role == Some("asp"@)
            &&& buyer.len() > 0 ==> asp_row.counterparty_agent_id == Some(buyer)
            &&& buyer.len() == 0 ==> asp_row.counterparty_agent_id is None
            &&& asp_row.counterparty_role == Some("user"@)
        }),
        forall|role: i64|
            role != 1 && role != 2 ==> (#[trigger] active_tasks::row_of(
                task,
                kind,
                agent,
                role,
                closed,
                now,
            )).counterparty_agent_id is None && active_tasks::row_of(
                task,
                kind,
                agent,
                role,
                closed,
                now,
            ).counterparty_role is None,
{
    first_plain_text_counts(task, "providerAgentId"@, "aspAgentId"@, ""@);
    first_plain_text_counts(task, "buyerAgentId"@, "userAgentId"@, ""@);
}

/// A row never names its own agent as the counterparty where the other side of the
/// task is another agent.
pub proof fn rows_do_not_name_their_own_agent(
    task: JsonView,
    kind: ActiveTaskKind,
    agent: Seq<char>,
    role: i64,
    closed: bool,
    now: i64,
)
    requires
        role == 1 ==> plain_either(task, "providerAgentId"@, "aspAgentId"@) != agent,
        role == 2 ==> plain_either(task, "buyerAgentId"@, "userAgentId"@) != agent,
    ensures
        active_tasks::row_of(task, kind, agent, role, closed, now).counterparty_agent_id != Some(
            agent,
        ),
        active_tasks::row_of(task, kind, agent, role, closed, now).my_agent_id == agent,
{
    counterparties_are_the_other_side(task, kind, agent, closed, now);
}

/// What a row says of its task: the texts under these keys, the status by its code,
/// and the role of the agent.
pub proof fn rows_show_their_task(
    task: JsonView,
    kind: ActiveTaskKind,
    agent: Seq<char>,
    role: i64,
    closed: bool,
    now: i64,
)
    requires
        active_tasks::listed_code(task, kind) is Some,
    ensures
        ({
            let row = active_tasks::row_of(task, kind, agent, role, closed, now);
            let code = active_tasks::listed_code(task, kind)->0;
            &&& row.job_id == plain_either(task, "jobId"@, "subId"@)
            &&& row.short_job_id == active_tasks::shortened(row.job_id)
            &&& row.my_agent_id == agent
            &&& row.my_role == query::role_key(role)
            &&& row.status_code == code
            &&& row.title == (if json::str_at(task, "title"@) is Some {
                json::str_at(task, "title"@)->0
            } else {
                plain_either(task, "jobName"@, "serviceName"@)
            })
            &&& row.token_amount == (if json::str_at(task, "serviceTokenAmount"@) is Some {
                json::str_at(task, "serviceTokenAmount"@)->0
            } else {
                plain_either(task, "paymentTokenAmount"@, "tokenAmount"@)
            })
            &&& row.token_symbol == (if json::str_at(task, "serviceTokenSymbol"@) is Some {
                json::str_at(task, "serviceTokenSymbol"@)->0
            } else {
                plain_either(task, "paymentTokenSymbol"@, "tokenSymbol"@)
            })
            &&& kind == ActiveTaskKind::OneTime ==> row.task_type == "one_time"@ && row.status
                == query::status_key(code) && row.status_label == query::task_label(code)
                && row.status_description == query::task_description(code) && query::integer_at(
                task,
                "status"@,
            ) == Some(code)
            &&& kind == ActiveTaskKind::Subscription ==> row.task_type == "subscription"@
                && row.status == query::subscription_key(code) && query::subscription_code(task)
                == Some(code)
            &&& kind == ActiveTaskKind::Subscription && code != 8 && code != 9 ==> row.status_label
                == query::subscription_label(code) && row.status_description
                == query::subscription_description(code)
        }),
{
    first_plain_text_counts(task, "jobId"@, "subId"@, ""@);
    first_plain_text_counts(task, "title"@, "jobName"@, "serviceName"@);
    first_plain_text_counts(
        task,
        "serviceTokenAmount"@,
        "paymentTokenAmount"@,
        "tokenAmount"@,
    );
    first_plain_text_counts(
        task,
        "serviceTokenSymbol"@,
        "paymentTokenSymbol"@,
        "tokenSymbol"@,
    );
}

/// A subscription that expired or failed has in its row the copy that its snapshot
/// would show.
pub proof fn ambiguous_rows_show_their_snapshot(
    task: JsonView,
    agent: Seq<char>,
    role: i64,
    closed: bool,
    now: i64,
)
    requires
        query::subscription_code(task) == Some(8i64) || query::subscription_code(task) == Some(
            9i64,
        ),
    ensures
        ({
            let row = active_tasks::row_of(
                task,
                ActiveTaskKind::Subscription,
                agent,
                role,
                closed,
                now,
            );
            let copy = subscription_snapshot::copy_at(task, closed, now);
            row.status_label == copy && row.status_description == copy
        }),
{
}

/// A long job id with a character across the end of its first six bytes or the
/// start of its last four cannot be shortened; any other can.
pub proof fn ids_are_cut_between_characters(id: Seq<char>)
    ensures
        ({
            let bytes = vstd::utf8::encode_utf8(id);
            let whole = vstd::utf8::is_char_boundary(bytes, 6) && vstd::utf8::is_char_boundary(
                bytes,
                bytes.len() - 4,
            );
            &&& bytes.len() >= 12 ==> (active_tasks::can_shorten(id) <==> whole)
            &&& bytes.len() < 12 ==> active_tasks::can_shorten(id) && active_tasks::shortened(id)
                == id
        }),
{
}

/// A task is shown just where it has a status and a job id, and its status is open
/// or closed ones are asked for: an open one-time task has one of the codes from 0
/// to 4, an open subscription -1, 0, 1, 3 or 4.
pub proof fn open_tasks_are_shown(task: JsonView, kind: ActiveTaskKind, include_terminal: bool)
    ensures
        ({
            let code = match kind {
                ActiveTaskKind::OneTime => query::integer_at(task, "status"@),
                ActiveTaskKind::Subscription => query::subscription_code(task),
            };
            let open = code is Some && match kind {
                ActiveTaskKind::OneTime => 0 <= code->0 <= 4,
                ActiveTaskKind::Subscription => -1 <= code->0 <= 4 && code->0 != 2,
            };
            active_tasks::is_shown(task, kind, include_terminal) <==> plain_either(
                task,
                "jobId"@,
                "subId"@,
            ).len() > 0 && code is Some && (open || include_terminal)
        }),
{
    first_plain_text_counts(task, "jobId"@, "subId"@, ""@);
}

/// A row of the ordinary registry is one of a one-time task just where it states no
/// type or the type zero.
pub proof fn ordinary_rows_are_one_time_tasks(task: JsonView)
    ensures
        active_tasks::ordinary_kind(task) == Some(ActiveTaskKind::OneTime) <==> query::integer_at(
            task,
            "jobType"@,
        ) is None || query::integer_at(task, "jobType"@) == Some(0i64),
        active_tasks::ordinary_kind(task) != Some(ActiveTaskKind::Subscription),
{
}

/// The items of a response stand under `list`, or are the response itself.
pub proof fn items_stand_under_list(value: JsonView, items: Seq<JsonView>)
    ensures
        json::member(value, "list"@) == Some(JsonView::Array(items)) ==> active_tasks::items_of(
            value,
        ) == items,
        value == JsonView::Array(items) ==> active_tasks::items_of(value) == items,
        !(value is Array) && !(json::member(value, "list"@) matches Some(list) && list is Array)
            ==> active_tasks::items_of(value).len() == 0,
{
}

/// Two rows have the same key where they have the same agent and job.
pub proof fn keys_hold_agent_and_job(
    task: JsonView,
    other: JsonView,
    kind: ActiveTaskKind,
    other_kind: ActiveTaskKind,
    agent: Seq<char>,
    role: i64,
    closed: bool,
    now: i64,
)
    ensures
        ({
            let row = active_tasks::row_of(task, kind, agent, role, closed, now);
            let second = active_tasks::row_of(other, other_kind, agent, role, closed, now);
            &&& active_tasks::row_key(row) == agent + "\0"@ + active_tasks::listed_job(task)
            &&& active_tasks::row_key(row) == active_tasks::row_key(second)
                <==> active_tasks::listed_job(task) == active_tasks::listed_job(other)
        }),
{
    let prefix = agent + "\0"@;
    let a = active_tasks::listed_job(task);
    let b = active_tasks::listed_job(other);
    if prefix + a == prefix + b {
        assert((prefix + a).skip(prefix.len() as int) =~= a);
        assert((prefix + b).skip(prefix.len() as int) =~= b);
    }
}

/// Adding a row to a table adds it at the end, unless one of its agent and job is
/// there.
pub proof fn new_rows_stand_at_the_end(
    table: active_tasks::TableView,
    row: active_tasks::RowView,
)
    ensures
        !table.seen.contains(active_tasks::row_key(row)) ==> active_tasks::pushed(table, row).rows
            == table.rows.push(row) && active_tasks::pushed(table, row).rows.last() == row,
        table.seen.contains(active_tasks::row_key(row)) ==> active_tasks::pushed(table, row)
            == table,
{
}

/// The subscriptions and the one-time tasks of an agent are added one after the
/// other, each where it is shown, with what is on record of its closure.
pub proof fn tasks_are_added_in_turn(
    table: active_tasks::TableView,
    earlier: Seq<JsonView>,
    task: JsonView,
    submitted: Seq<bool>,
    agent: Seq<char>,
    role: i64,
    include_terminal: bool,
    now: i64,
)
    requires
        submitted.len() == earlier.len() + 1,
    ensures
        ({
            let before = active_tasks::with_subscriptions(
                table,
                earlier,
                submitted,
                agent,
                role,
                include_terminal,
                now,
            );
            let after = active_tasks::with_subscriptions(
                table,
                earlier.push(task),
                submitted,
                agent,
                role,
                include_terminal,
                now,
            );
            let kind = ActiveTaskKind::Subscription;
            &&& active_tasks::is_shown(task, kind, include_terminal) ==> after
                == active_tasks::pushed(
                before,
                active_tasks::row_of(task, kind, agent, role, submitted.last(), now),
            )
            &&& !active_tasks::is_shown(task, kind, include_terminal) ==> after == before
        }),
        ({
            let before = active_tasks::with_ordinary(table, earlier, agent, role, include_terminal);
            let after = active_tasks::with_ordinary(
                table,
                earlier.push(task),
                agent,
                role,
                include_terminal,
            );
            let kind = ActiveTaskKind::OneTime;
            let one_time = query::integer_at(task, "jobType"@) is None || query::integer_at(
                task,
                "jobType"@,
            ) == Some(0i64);
            let shown = one_time && active_tasks::is_shown(task, kind, include_terminal);
            &&& shown ==> after == active_tasks::pushed(
                before,
                active_tasks::row_of(task, kind, agent, role, false, now),
            )
            &&& !shown ==> after == before
        }),
        active_tasks::with_ordinary(table, Seq::empty(), agent, role, include_terminal) == table,
        active_tasks::with_subscriptions(
            table,
            Seq::empty(),
            submitted,
            agent,
            role,
            include_terminal,
            now,
        ) == table,
{
    assert(earlier.push(task).drop_last() =~= earlier);
}

/// The agents of a listing are added one after the other: their subscriptions path
/// by path, and then their one-time tasks.
pub proof fn agents_are_added_in_turn(
    earlier: Seq<AnswersView>,
    one: AnswersView,
    include_terminal: bool,
    now: i64,
)
    ensures
        ({
            let before = active_listing::gathered_rows(earlier, include_terminal, now);
            let after = active_listing::gathered_rows(earlier.push(one), include_terminal, now);
            let id = one.queries.agent_id;
            let role = one.queries.role;
            let subscribed = active_listing::with_paths(
                before,
                one,
                one.subscriptions.len(),
                include_terminal,
                now,
            );
            &&& one.tasks is None ==> after == subscribed
            &&& one.tasks is Some ==> after == active_tasks::with_ordinary(
                subscribed,
                one.tasks->0,
                id,
                role,
                include_terminal,
            )
            &&& one.subscriptions.len() == 0 ==> subscribed == before
            &&& one.subscriptions.len() == 1 && one.subscriptions[0] is Some ==> subscribed
                == active_tasks::with_subscriptions(
                before,
                one.subscriptions[0]->0,
                one.submitted[0],
                id,
                role,
                include_terminal,
                now,
            )
            &&& one.subscriptions.len() == 2 && one.subscriptions[0] is Some
                && one.subscriptions[1] is Some ==> subscribed == active_tasks::with_subscriptions(
                active_tasks::with_subscriptions(
                    before,
                    one.subscriptions[0]->0,
                    one.submitted[0],
                    id,
                    role,
                    include_terminal,
                    now,
                ),
                one.subscriptions[1]->0,
                one.submitted[1],
                id,
                role,
                include_terminal,
                now,
            )
            &&& one.subscriptions.len() == 2 && one.subscriptions[0] is None
                && one.subscriptions[1] is Some ==> subscribed == active_tasks::with_subscriptions(
                before,
                one.subscriptions[1]->0,
                one.submitted[1],
                id,
                role,
                include_terminal,
                now,
            )
        }),
        active_listing::gathered_rows(Seq::empty(), include_terminal, now).rows.len() == 0,
{
    assert(earlier.push(one).drop_last() =~= earlier);
    reveal_with_fuel(active_listing::with_paths, 3);
}

/// What is asked for an agent: users and ASPs for their subscriptions, closed ones
/// where they are to be shown, and every agent for its one-time tasks.
pub proof fn agents_are_asked_under_their_paths(agent: JsonView, include_terminal: bool)
    ensures
        ({
            let asked = active_tasks::queries_of(agent, include_terminal);
            let id = json::str_at(agent, "agentId"@);
            let role = match json::member(agent, "role"@) {
                Some(value) => json::int_value(value),
                None => None,
            };
            let path = "/priapi/v1/aieco/task/subscribe/my?page=1&pageSize=100&statusType="@;
            &&& asked is Some <==> id is Some && id->0.len() > 0
            &&& asked is Some ==> asked->0.agent_id == id->0 && asked->0.task_path
                == "/priapi/v1/aieco/task/my?page=1&page_size=100"@
            &&& asked is Some && role is Some ==> asked->0.role == role->0
            &&& asked is Some && role is None ==> asked->0.role == 0
            &&& asked is Some && (role == Some(1i64) || role == Some(2i64)) && include_terminal
                ==> asked->0.subscription_paths == seq![
                path + text::decimal(1),
                path + text::decimal(2),
            ]
            &&& asked is Some && (role == Some(1i64) || role == Some(2i64)) && !include_terminal
                ==> asked->0.subscription_paths == seq![path + text::decimal(1)]
            &&& asked is Some && role != Some(1i64) && role != Some(2i64)
                ==> asked->0.subscription_paths.len() == 0
        }),
{
}

/// Agents are asked one after the other, and one without an id is passed over.
pub proof fn agents_are_asked_in_turn(
    earlier: Seq<JsonView>,
    agent: JsonView,
    include_terminal: bool,
)
    ensures
        ({
            let before = active_listing::all_queries(earlier, include_terminal);
            let asked = active_listing::all_queries(earlier.push(agent), include_terminal);
            match active_tasks::queries_of(agent, include_terminal) {
                Some(queries) => asked == before.push(queries),
                None => asked == before,
            }
        }),
{
    assert(earlier.push(agent).drop_last() =~= earlier);
}

/// A role filter keeps the agents whose role is the number asked for, in their
/// order.
pub proof fn role_filters_keep_their_role(earlier: Seq<JsonView>, agent: JsonView, role: i64)
    ensures
        json::member(agent, "role"@) == Some(json::int_json(role as int)) ==> active_tasks::of_role(
            earlier.push(agent),
            role,
        ) == active_tasks::of_role(earlier, role).push(agent),
        (match json::member(agent, "role"@) {
            Some(value) => json::int_value(value) != Some(role),
            None => true,
        }) ==> active_tasks::of_role(earlier.push(agent), role) == active_tasks::of_role(
            earlier,
            role,
        ),
{
    assert(earlier.push(agent).drop_last() =~= earlier);
}

} // verus!
