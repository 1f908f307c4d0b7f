//! The listing of active tasks over all agents of an account: what is asked, and
//! what the answers amount to.

use vstd::prelude::*;

use crate::active_tasks;
use crate::active_tasks::{
    add_subscription_rows_at, add_task_rows, agent_queries, is_showable, ordinary_task_kind,
    ActiveTaskKind, ActiveTaskRow, ActiveTaskTable, AgentQueries, QueriesView, RowView, TableView,
};
use crate::deadline::utc_now_seconds;
use crate::json;
use crate::json::{Json, JsonView};

verus! {

/// What is asked for a list of agents, in their order. An agent without an id is
/// passed over.
pub open spec fn all_queries(agents: Seq<JsonView>, include_terminal: bool) -> Seq<QueriesView>
    decreases agents.len(),
{
    if agents.len() == 0 {
        Seq::empty()
    } else {
        let before = all_queries(agents.drop_last(), include_terminal);
        match active_tasks::queries_of(agents.last(), include_terminal) {
            Some(queries) => before.push(queries),
            None => before,
        }
    }
}

/// The models of what is asked for several agents.
pub open spec fn queries_view(queries: Seq<AgentQueries>) -> Seq<QueriesView> {
    Seq::new(queries.len(), |i: int| queries[i]@)
}

/// What is asked for a list of agents, in their order.
pub fn active_task_queries(agents: &[Json], include_terminal: bool) -> (r: Vec<AgentQueries>)
    ensures
        queries_view(r@) == all_queries(json::jsons_view(agents@), include_terminal),
{
    let ghost all = json::jsons_view(agents@);
    let mut out: Vec<AgentQueries> = Vec::new();
    assert(queries_view(out@) =~= all_queries(all.take(0), include_terminal));
    let mut i: usize = 0;
    while i < agents.len()
        invariant
            i <= agents@.len(),
            all == json::jsons_view(agents@),
            queries_view(out@) == all_queries(all.take(i as int), include_terminal),
        decreases agents@.len() - i,
    {
        let ghost next = all.take(i + 1);
        let ghost before = queries_view(out@);
        assert(next.drop_last() =~= all.take(i as int));
        assert(next.last() == agents@[i as int]@);
        if let Some(queries) = agent_queries(&agents[i], include_terminal) {
            out.push(queries);
            assert(queries_view(out@) =~= before.push(queries@));
        }
        i = i + 1;
    }
    assert(all.take(all.len() as int) =~= all);
    out
}

/// What came back for one agent: for each path of its subscriptions the listed
/// tasks, none where the request failed, with whether a closure of each is on
/// record; and its one-time tasks, none where the request failed.
#[derive(Debug, PartialEq, Eq)]
pub struct AgentAnswers {
    pub queries: AgentQueries,
    pub subscriptions: Vec<Option<Vec<Json>>>,
    pub submitted: Vec<Vec<bool>>,
    pub tasks: Option<Vec<Json>>,
}

/// The model of what came back for one agent.
#[verifier::ext_equal]
pub struct AnswersView {
    pub queries: QueriesView,
    pub subscriptions: Seq<Option<Seq<JsonView>>>,
    pub submitted: Seq<Seq<bool>>,
    pub tasks: Option<Seq<JsonView>>,
}

/// The models of an optional list of JSON values.
pub open spec fn opt_jsons(items: Option<Vec<Json>>) -> Option<Seq<JsonView>> {
    match items {
        Some(items) => Some(json::jsons_view(items@)),
        None => None,
    }
}

impl View for AgentAnswers {
    type V = AnswersView;

    open spec fn view(&self) -> AnswersView {
        AnswersView {
            queries: self.queries@,
            subscriptions: Seq::new(
                self.subscriptions@.len(),
                |p: int| opt_jsons(self.subscriptions@[p]),
            ),
            submitted: Seq::new(self.submitted@.len(), |p: int| self.submitted@[p]@),
            tasks: opt_jsons(self.tasks),
        }
    }
}

/// The models of what came back for several agents.
pub open spec fn answers_view(answers: Seq<AgentAnswers>) -> Seq<AnswersView> {
    Seq::new(answers.len(), |i: int| answers[i]@)
}

/// Whether the rows of listed subscriptions can be made, and it is known of each
/// whether its closure is on record.
pub open spec fn can_list_subscriptions(
    tasks: Seq<JsonView>,
    submitted: Seq<bool>,
    include_terminal: bool,
) -> bool {
    &&& submitted.len() == tasks.len()
    &&& forall|k: int|
        0 <= k < tasks.len() ==> active_tasks::can_show(
            #[trigger] tasks[k],
            ActiveTaskKind::Subscription,
            include_terminal,
        )
}

/// Whether the rows of listed one-time tasks can be made.
pub open spec fn can_list_tasks(tasks: Seq<JsonView>, include_terminal: bool) -> bool {
    forall|k: int|
        0 <= k < tasks.len() && active_tasks::ordinary_kind(#[trigger] tasks[k]) is Some
            ==> active_tasks::can_show(tasks[k], ActiveTaskKind::OneTime, include_terminal)
}

/// Whether there is an answer to each path of an agent, and its rows can be made.
pub open spec fn can_list_agent(answers: AnswersView, include_terminal: bool) -> bool {
    &&& answers.subscriptions.len() == answers.queries.subscription_paths.len()
    &&& answers.submitted.len() == answers.subscriptions.len()
    &&& forall|p: int|
        0 <= p < answers.subscriptions.len() ==> (#[trigger] answers.subscriptions[p] matches Some(
            tasks,
        ) ==> can_list_subscriptions(tasks, answers.submitted[p], include_terminal))
    &&& answers.tasks matches Some(tasks) ==> can_list_tasks(tasks, include_terminal)
}

/// Whether the rows of all agents can be made.
pub open spec fn can_list(answers: Seq<AnswersView>, include_terminal: bool) -> bool {
    forall|i: int|
        0 <= i < answers.len() ==> can_list_agent(#[trigger] answers[i], include_terminal)
}

fn are_listable_subscriptions(tasks: &[Json], submitted: &[bool], include_terminal: bool) -> (r:
    bool)
    ensures
        r == can_list_subscriptions(json::jsons_view(tasks@), submitted@, include_terminal),
{
    if submitted.len() != tasks.len() {
        return false;
    }
    let ghost all = json::jsons_view(tasks@);
    let mut k: usize = 0;
    while k < tasks.len()
        invariant
            k <= tasks@.len(),
            all == json::jsons_view(tasks@),
            forall|j: int|
                0 <= j < k ==> active_tasks::can_show(
                    #[trigger] all[j],
                    ActiveTaskKind::Subscription,
                    include_terminal,
                ),
        decreases tasks@.len() - k,
    {
        assert(all[k as int] == tasks@[k as int]@);
        if !is_showable(&tasks[k], ActiveTaskKind::Subscription, include_terminal) {
            return false;
        }
        k = k + 1;
    }
    true
}

fn are_listable_tasks(tasks: &[Json], include_terminal: bool) -> (r: bool)
    ensures
        r == can_list_tasks(json::jsons_view(tasks@), include_terminal),
{
    let ghost all = json::jsons_view(tasks@);
    let mut k: usize = 0;
    while k < tasks.len()
        invariant
            k <= tasks@.len(),
            all == json::jsons_view(tasks@),
            forall|j: int|
                0 <= j < k && active_tasks::ordinary_kind(#[trigger] all[j]) is Some
                    ==> active_tasks::can_show(all[j], ActiveTaskKind::OneTime, include_terminal),
        decreases tasks@.len() - k,
    {
        assert(all[k as int] == tasks@[k as int]@);
        if let Some(kind) = ordinary_task_kind(&tasks[k]) {
            if !is_showable(&tasks[k], kind, include_terminal) {
                return false;
            }
        }
        k = k + 1;
    }
    true
}

fn is_listable_agent(answers: &AgentAnswers, include_terminal: bool) -> (r: bool)
    ensures
        r == can_list_agent(answers@, include_terminal),
{
    if answers.subscriptions.len() != answers.queries.subscription_paths.len()
        || answers.submitted.len() != answers.subscriptions.len() {
        return false;
    }
    let mut p: usize = 0;
    while p < answers.subscriptions.len()
        invariant
            p <= answers.subscriptions@.len(),
            answers.submitted@.len() == answers.subscriptions@.len(),
            forall|q: int|
                0 <= q < p ==> (#[trigger] answers@.subscriptions[q] matches Some(tasks)
                    ==> can_list_subscriptions(tasks, answers@.submitted[q], include_terminal)),
        decreases answers.subscriptions@.len() - p,
    {
        assert(answers@.subscriptions[p as int] == opt_jsons(answers.subscriptions@[p as int]));
        assert(answers@.submitted[p as int] == answers.submitted@[p as int]@);
        if let Some(tasks) = &answers.subscriptions[p] {
            if !are_listable_subscriptions(
                tasks.as_slice(),
                answers.submitted[p].as_slice(),
                include_terminal,
            ) {
                return false;
            }
        }
        p = p + 1;
    }
    match &answers.tasks {
        Some(tasks) => are_listable_tasks(tasks.as_slice(), include_terminal),
        None => true,
    }
}

/// Whether the rows of all agents can be made.
pub fn are_listable(answers: &[AgentAnswers], include_terminal: bool) -> (r: bool)
    ensures
        r == can_list(answers_view(answers@), include_terminal),
{
    let ghost all = answers_view(answers@);
    let mut i: usize = 0;
    while i < answers.len()
        invariant
            i <= answers@.len(),
            all == answers_view(answers@),
            forall|j: int| 0 <= j < i ==> can_list_agent(#[trigger] all[j], include_terminal),
        decreases answers@.len() - i,
    {
        assert(all[i as int] == answers@[i as int]@);
        if !is_listable_agent(&answers[i], include_terminal) {
            return false;
        }
        i = i + 1;
    }
    true
}

/// A table with the shown subscriptions of the first paths of an agent added,
/// path by path. A path whose request failed adds nothing.
pub open spec fn with_paths(
    table: TableView,
    answers: AnswersView,
    paths: nat,
    include_terminal: bool,
    now: i64,
) -> TableView
    decreases paths,
{
    if paths == 0 {
        table
    } else {
        let p = paths - 1;
        let before = with_paths(table, answers, p as nat, include_terminal, now);
        match answers.subscriptions[p] {
            Some(tasks) => active_tasks::with_subscriptions(
                before,
                tasks,
                answers.submitted[p],
                answers.queries.agent_id,
                answers.queries.role,
                include_terminal,
                now,
            ),
            None => before,
        }
    }
}

/// A table with the shown tasks of an agent added: its subscriptions, and then
/// its one-time tasks, unless their request failed.
pub open spec fn with_agent(
    table: TableView,
    answers: AnswersView,
    include_terminal: bool,
    now: i64,
) -> TableView {
    let subscribed = with_paths(
        table,
        answers,
        answers.subscriptions.len(),
        include_terminal,
        now,
    );
    match answers.tasks {
        Some(tasks) => active_tasks::with_ordinary(
            subscribed,
            tasks,
            answers.queries.agent_id,
            answers.queries.role,
            include_terminal,
        ),
        None => subscribed,
    }
}

/// The table of all agents, agent by agent.
pub open spec fn gathered_rows(
    answers: Seq<AnswersView>,
    include_terminal: bool,
    now: i64,
) -> TableView
    decreases answers.len(),
{
    if answers.len() == 0 {
        TableView { rows: Seq::empty(), seen: Seq::empty() }
    } else {
        with_agent(
            gathered_rows(answers.drop_last(), include_terminal, now),
            answers.last(),
            include_terminal,
            now,
        )
    }
}

fn add_agent_rows_at(
    table: &mut ActiveTaskTable,
    answers: &AgentAnswers,
    include_terminal: bool,
    now: i64,
)
    requires
        can_list_agent(answers@, include_terminal),
    ensures
        final(table)@ == with_agent(old(table)@, answers@, include_terminal, now),
{
    let ghost start = table@;
    let mut p: usize = 0;
    while p < answers.subscriptions.len()
        invariant
            p <= answers.subscriptions@.len(),
            can_list_agent(answers@, include_terminal),
            table@ == with_paths(start, answers@, p as nat, include_terminal, now),
        decreases answers.subscriptions@.len() - p,
    {
        assert(answers@.subscriptions[p as int] == opt_jsons(answers.subscriptions@[p as int]));
        assert(answers@.submitted[p as int] == answers.submitted@[p as int]@);
        if let Some(tasks) = &answers.subscriptions[p] {
            assert forall|k: int| 0 <= k < tasks@.len() implies active_tasks::can_show(
                (#[trigger] tasks@[k])@,
                ActiveTaskKind::Subscription,
                include_terminal,
            ) by {
                assert(json::jsons_view(tasks@)[k] == tasks@[k]@);
            }
            add_subscription_rows_at(
                table,
                tasks.as_slice(),
                answers.submitted[p].as_slice(),
                answers.queries.agent_id.as_str(),
                answers.queries.role,
                include_terminal,
                now,
            );
        }
        p = p + 1;
    }
    if let Some(tasks) = &answers.tasks {
        assert forall|k: int|
            0 <= k < tasks@.len() && active_tasks::ordinary_kind((#[trigger] tasks@[k])@)
                is Some implies active_tasks::can_show(
            tasks@[k]@,
            ActiveTaskKind::OneTime,
            include_terminal,
        ) by {
            assert(json::jsons_view(tasks@)[k] == tasks@[k]@);
        }
        add_task_rows(
            table,
            tasks.as_slice(),
            answers.queries.agent_id.as_str(),
            answers.queries.role,
            include_terminal,
        );
    }
}

/// The table of all agents from what came back for each, as of a time.
pub fn active_tasks_at(answers: &[AgentAnswers], include_terminal: bool, now: i64) -> (r:
    ActiveTaskTable)
    requires
        can_list(answers_view(answers@), include_terminal),
    ensures
        r@ == gathered_rows(answers_view(answers@), include_terminal, now),
        active_tasks::is_table(r@.rows, r@.seen),
{
    let ghost all = answers_view(answers@);
    let mut table = ActiveTaskTable::new();
    assert(table@ =~= gathered_rows(all.take(0), include_terminal, now));
    let mut i: usize = 0;
    while i < answers.len()
        invariant
            i <= answers@.len(),
            all == answers_view(answers@),
            can_list(all, include_terminal),
            table@ == gathered_rows(all.take(i as int), include_terminal, now),
        decreases answers@.len() - i,
    {
        let ghost next = all.take(i + 1);
        assert(next.drop_last() =~= all.take(i as int));
        assert(next.last() == answers@[i as int]@);
        assert(all[i as int] == answers@[i as int]@);
        add_agent_rows_at(&mut table, &answers[i], include_terminal, now);
        i = i + 1;
    }
    assert(all.take(all.len() as int) =~= all);
    proof {
        listings_are_tables(all, include_terminal, now);
    }
    table
}

/// What a listing of active tasks says: how many agents it is about, how many
/// tasks it shows, and those tasks.
#[derive(Debug, PartialEq, Eq)]
pub struct ActiveTaskListing {
    pub total_agents: usize,
    pub total_tasks: usize,
    pub tasks: Vec<ActiveTaskRow>,
}

/// Whether rows are those of a listing of all agents, at some time.
pub open spec fn is_listing_of(
    rows: Seq<RowView>,
    answers: Seq<AnswersView>,
    include_terminal: bool,
) -> bool {
    exists|now: i64| rows == (#[trigger] gathered_rows(answers, include_terminal, now)).rows
}

/// The listing of active tasks as of a time. All agents are counted, those
/// without an id too; of the tasks, those that are shown.
pub fn active_task_listing_at(
    agents: &[Json],
    answers: &[AgentAnswers],
    include_terminal: bool,
    now: i64,
) -> (r: ActiveTaskListing)
    requires
        can_list(answers_view(answers@), include_terminal),
    ensures
        active_tasks::rows_view(r.tasks@) == gathered_rows(
            answers_view(answers@),
            include_terminal,
            now,
        ).rows,
        r.total_tasks == r.tasks@.len(),
        r.total_agents == agents@.len(),
{
    let table = active_tasks_at(answers, include_terminal, now);
    ActiveTaskListing {
        total_agents: agents.len(),
        total_tasks: table.rows.len(),
        tasks: table.rows,
    }
}

/// The listing of active tasks as of now.
pub fn active_task_listing(agents: &[Json], answers: &[AgentAnswers], include_terminal: bool) -> (r:
    ActiveTaskListing)
    requires
        can_list(answers_view(answers@), include_terminal),
    ensures
        is_listing_of(
            active_tasks::rows_view(r.tasks@),
            answers_view(answers@),
            include_terminal,
        ),
        r.total_tasks == r.tasks@.len(),
        r.total_agents == agents@.len(),
{
    active_task_listing_at(agents, answers, include_terminal, utc_now_seconds())
}

/// Adding the subscriptions of an agent keeps the rows that are there.
proof fn lemma_paths_extend(
    table: TableView,
    answers: AnswersView,
    paths: nat,
    include_terminal: bool,
    now: i64,
)
    ensures
        active_tasks::extends(with_paths(table, answers, paths, include_terminal, now), table),
    decreases paths,
{
    if paths == 0 {
        assert(table.rows.take(table.rows.len() as int) =~= table.rows);
    } else {
        let p = paths - 1;
        let before = with_paths(table, answers, p as nat, include_terminal, now);
        lemma_paths_extend(table, answers, p as nat, include_terminal, now);
        if let Some(tasks) = answers.subscriptions[p] {
            active_tasks::subscriptions_keep_earlier_rows(
                before,
                tasks,
                answers.submitted[p],
                answers.queries.agent_id,
                answers.queries.role,
                include_terminal,
                now,
            );
            active_tasks::extending_is_transitive(
                table,
                before,
                with_paths(table, answers, paths, include_terminal, now),
            );
        }
    }
}

/// The rows of an agent stand after those of earlier agents, its subscriptions
/// before its one-time tasks.
pub proof fn subscriptions_stand_before_tasks(
    table: TableView,
    answers: AnswersView,
    include_terminal: bool,
    now: i64,
)
    ensures
        ({
            let subscribed = with_paths(
                table,
                answers,
                answers.subscriptions.len(),
                include_terminal,
                now,
            );
            let listed = with_agent(table, answers, include_terminal, now);
            &&& active_tasks::extends(subscribed, table)
            &&& active_tasks::extends(listed, subscribed)
            &&& active_tasks::extends(listed, table)
        }),
{
    let subscribed = with_paths(
        table,
        answers,
        answers.subscriptions.len(),
        include_terminal,
        now,
    );
    lemma_paths_extend(table, answers, answers.subscriptions.len(), include_terminal, now);
    if let Some(tasks) = answers.tasks {
        active_tasks::one_time_tasks_keep_earlier_rows(
            subscribed,
            tasks,
            answers.queries.agent_id,
            answers.queries.role,
            include_terminal,
        );
    } else {
        assert(subscribed.rows.take(subscribed.rows.len() as int) =~= subscribed.rows);
    }
    active_tasks::extending_is_transitive(
        table,
        subscribed,
        with_agent(table, answers, include_terminal, now),
    );
}

/// A listing has one row for each agent and job.
pub proof fn listings_are_tables(answers: Seq<AnswersView>, include_terminal: bool, now: i64)
    ensures
        ({
            let listed = gathered_rows(answers, include_terminal, now);
            active_tasks::is_table(listed.rows, listed.seen)
        }),
    decreases answers.len(),
{
    let listed = gathered_rows(answers, include_terminal, now);
    if answers.len() == 0 {
        assert(listed.seen =~= active_tasks::row_keys(listed.rows));
    } else {
        listings_are_tables(answers.drop_last(), include_terminal, now);
        subscriptions_stand_before_tasks(
            gathered_rows(answers.drop_last(), include_terminal, now),
            answers.last(),
            include_terminal,
            now,
        );
    }
}

/// What comes back for later agents does not change the rows of earlier ones.
pub proof fn later_agents_keep_earlier_rows(
    answers: Seq<AnswersView>,
    agents: int,
    include_terminal: bool,
    now: i64,
)
    requires
        0 <= agents <= answers.len(),
    ensures
        active_tasks::extends(
            gathered_rows(answers, include_terminal, now),
            gathered_rows(answers.take(agents), include_terminal, now),
        ),
    decreases answers.len(),
{
    let listed = gathered_rows(answers, include_terminal, now);
    let first = gathered_rows(answers.take(agents), include_terminal, now);
    if agents == answers.len() {
        assert(answers.take(agents) =~= answers);
        assert(listed.rows.take(listed.rows.len() as int) =~= listed.rows);
    } else {
        let front = answers.drop_last();
        later_agents_keep_earlier_rows(front, agents, include_terminal, now);
        assert(front.take(agents) =~= answers.take(agents));
        let before = gathered_rows(front, include_terminal, now);
        subscriptions_stand_before_tasks(before, answers.last(), include_terminal, now);
        active_tasks::extending_is_transitive(first, before, listed);
    }
}

proof fn lemma_failed_paths(
    table: TableView,
    answers: AnswersView,
    paths: nat,
    include_terminal: bool,
    now: i64,
)
    requires
        paths <= answers.subscriptions.len(),
        forall|p: int|
            0 <= p < answers.subscriptions.len() ==> #[trigger] answers.subscriptions[p] is None,
    ensures
        with_paths(table, answers, paths, include_terminal, now) == table,
    decreases paths,
{
    if paths > 0 {
        lemma_failed_paths(table, answers, (paths - 1) as nat, include_terminal, now);
    }
}

/// An agent whose requests all failed adds no row, and takes none away.
pub proof fn failed_requests_add_no_rows(
    table: TableView,
    answers: AnswersView,
    include_terminal: bool,
    now: i64,
)
    requires
        answers.tasks is None,
        forall|p: int|
            0 <= p < answers.subscriptions.len() ==> #[trigger] answers.subscriptions[p] is None,
    ensures
        with_agent(table, answers, include_terminal, now) == table,
{
    lemma_failed_paths(table, answers, answers.subscriptions.len(), include_terminal, now);
}

/// Whether a row is that of a shown subscription which an agent has under a path.
pub open spec fn is_subscription_row(
    row: RowView,
    answers: AnswersView,
    p: int,
    k: int,
    include_terminal: bool,
    now: i64,
) -> bool {
    &&& 0 <= p < answers.subscriptions.len()
    &&& answers.subscriptions[p] matches Some(tasks) && 0 <= k < tasks.len()
        && active_tasks::is_shown(tasks[k], ActiveTaskKind::Subscription, include_terminal) && row
        == active_tasks::row_of(
        tasks[k],
        ActiveTaskKind::Subscription,
        answers.queries.agent_id,
        answers.queries.role,
        answers.submitted[p][k],
        now,
    )
}

/// Whether a row is that of a shown one-time task of an agent.
pub open spec fn is_task_row(
    row: RowView,
    answers: AnswersView,
    k: int,
    include_terminal: bool,
) -> bool {
    answers.tasks matches Some(tasks) && 0 <= k < tasks.len() && active_tasks::ordinary_kind(
        tasks[k],
    ) is Some && active_tasks::is_shown(tasks[k], ActiveTaskKind::OneTime, include_terminal) && row
        == active_tasks::row_of(
        tasks[k],
        ActiveTaskKind::OneTime,
        answers.queries.agent_id,
        answers.queries.role,
        false,
        0,
    )
}

/// Whether a row is that of a task which came back for an agent.
pub open spec fn comes_from(
    row: RowView,
    answers: AnswersView,
    include_terminal: bool,
    now: i64,
) -> bool {
    ||| exists|p: int, k: int| is_subscription_row(row, answers, p, k, include_terminal, now)
    ||| exists|k: int| is_task_row(row, answers, k, include_terminal)
}

proof fn lemma_subscription_row(
    table: TableView,
    tasks: Seq<JsonView>,
    submitted: Seq<bool>,
    agent: Seq<char>,
    role: i64,
    include_terminal: bool,
    now: i64,
    j: int,
) -> (k: int)
    requires
        table.rows.len() <= j < active_tasks::with_subscriptions(
            table,
            tasks,
            submitted,
            agent,
            role,
            include_terminal,
            now,
        ).rows.len(),
    ensures
        0 <= k < tasks.len(),
        active_tasks::is_shown(tasks[k], ActiveTaskKind::Subscription, include_terminal),
        active_tasks::with_subscriptions(
            table,
            tasks,
            submitted,
            agent,
            role,
            include_terminal,
            now,
        ).rows[j] == active_tasks::row_of(
            tasks[k],
            ActiveTaskKind::Subscription,
            agent,
            role,
            submitted[k],
            now,
        ),
    decreases tasks.len(),
{
    let front = tasks.drop_last();
    let before = active_tasks::with_subscriptions(
        table,
        front,
        submitted,
        agent,
        role,
        include_terminal,
        now,
    );
    if j < before.rows.len() {
        lemma_subscription_row(
            table,
            front,
            submitted,
            agent,
            role,
            include_terminal,
            now,
            j,
        )
    } else {
        tasks.len() - 1
    }
}

proof fn lemma_task_row(
    table: TableView,
    tasks: Seq<JsonView>,
    agent: Seq<char>,
    role: i64,
    include_terminal: bool,
    j: int,
) -> (k: int)
    requires
        table.rows.len() <= j < active_tasks::with_ordinary(
            table,
            tasks,
            agent,
            role,
            include_terminal,
        ).rows.len(),
    ensures
        0 <= k < tasks.len(),
        active_tasks::ordinary_kind(tasks[k]) is Some,
        active_tasks::is_shown(tasks[k], ActiveTaskKind::OneTime, include_terminal),
        active_tasks::with_ordinary(table, tasks, agent, role, include_terminal).rows[j]
            == active_tasks::row_of(tasks[k], ActiveTaskKind::OneTime, agent, role, false, 0),
    decreases tasks.len(),
{
    let front = tasks.drop_last();
    let before = active_tasks::with_ordinary(table, front, agent, role, include_terminal);
    if j < before.rows.len() {
        lemma_task_row(table, front, agent, role, include_terminal, j)
    } else {
        tasks.len() - 1
    }
}

proof fn lemma_path_row(
    table: TableView,
    answers: AnswersView,
    paths: nat,
    include_terminal: bool,
    now: i64,
    j: int,
)
    requires
        paths <= answers.subscriptions.len(),
        table.rows.len() <= j < with_paths(
            table,
            answers,
            paths,
            include_terminal,
            now,
        ).rows.len(),
    ensures
        comes_from(
            with_paths(table, answers, paths, include_terminal, now).rows[j],
            answers,
            include_terminal,
            now,
        ),
    decreases paths,
{
    let listed = with_paths(table, answers, paths, include_terminal, now);
    let p = paths - 1;
    let before = with_paths(table, answers, p as nat, include_terminal, now);
    if let Some(tasks) = answers.subscriptions[p] {
        if j < before.rows.len() {
            active_tasks::subscriptions_keep_earlier_rows(
                before,
                tasks,
                answers.submitted[p],
                answers.queries.agent_id,
                answers.queries.role,
                include_terminal,
                now,
            );
            assert(listed.rows.take(before.rows.len() as int)[j] == listed.rows[j]);
            lemma_path_row(table, answers, p as nat, include_terminal, now, j);
        } else {
            let k = lemma_subscription_row(
                before,
                tasks,
                answers.submitted[p],
                answers.queries.agent_id,
                answers.queries.role,
                include_terminal,
                now,
                j,
            );
            assert(is_subscription_row(listed.rows[j], answers, p, k, include_terminal, now));
        }
    } else {
        lemma_path_row(table, answers, p as nat, include_terminal, now, j);
    }
}

proof fn lemma_agent_row(
    table: TableView,
    answers: AnswersView,
    include_terminal: bool,
    now: i64,
    j: int,
)
    requires
        table.rows.len() <= j < with_agent(table, answers, include_terminal, now).rows.len(),
    ensures
        comes_from(
            with_agent(table, answers, include_terminal, now).rows[j],
            answers,
            include_terminal,
            now,
        ),
{
    let paths = answers.subscriptions.len();
    let subscribed = with_paths(table, answers, paths, include_terminal, now);
    let listed = with_agent(table, answers, include_terminal, now);
    if j < subscribed.rows.len() {
        subscriptions_stand_before_tasks(table, answers, include_terminal, now);
        assert(listed.rows.take(subscribed.rows.len() as int)[j] == listed.rows[j]);
        lemma_path_row(table, answers, paths, include_terminal, now, j);
    } else if let Some(tasks) = answers.tasks {
        let k = lemma_task_row(
            subscribed,
            tasks,
            answers.queries.agent_id,
            answers.queries.role,
            include_terminal,
            j,
        );
        assert(is_task_row(listed.rows[j], answers, k, include_terminal));
    }
}

/// Every row of a listing is that of a shown task which came back for one of the
/// agents.
pub proof fn listed_rows_come_from_answers(
    answers: Seq<AnswersView>,
    include_terminal: bool,
    now: i64,
    j: int,
)
    requires
        0 <= j < gathered_rows(answers, include_terminal, now).rows.len(),
    ensures
        exists|i: int|
            0 <= i < answers.len() && comes_from(
                gathered_rows(answers, include_terminal, now).rows[j],
                #[trigger] answers[i],
                include_terminal,
                now,
            ),
    decreases answers.len(),
{
    let listed = gathered_rows(answers, include_terminal, now);
    let front = answers.drop_last();
    let before = gathered_rows(front, include_terminal, now);
    if j < before.rows.len() {
        subscriptions_stand_before_tasks(before, answers.last(), include_terminal, now);
        assert(listed.rows.take(before.rows.len() as int)[j] == listed.rows[j]);
        listed_rows_come_from_answers(front, include_terminal, now, j);
        let i = choose|i: int|
            0 <= i < front.len() && comes_from(
                before.rows[j],
                #[trigger] front[i],
                include_terminal,
                now,
            );
        assert(front[i] == answers[i]);
    } else {
        lemma_agent_row(before, answers.last(), include_terminal, now, j);
        assert(answers.last() == answers[answers.len() - 1]);
    }
}

/// The key of the row of an agent and a listed task.
pub open spec fn listed_key(agent: Seq<char>, task: JsonView) -> Seq<char> {
    agent + "\0"@ + active_tasks::listed_job(task)
}

/// A key of a table that is kept is a key of what keeps it.
proof fn lemma_keys_kept(after: TableView, before: TableView, key: Seq<char>)
    requires
        active_tasks::extends(after, before),
        active_tasks::is_table(before.rows, before.seen),
        before.seen.contains(key),
    ensures
        after.seen.contains(key),
{
    let i = choose|i: int| 0 <= i < before.seen.len() && before.seen[i] == key;
    assert(after.rows.take(before.rows.len() as int)[i] == after.rows[i]);
    assert(after.seen[i] == active_tasks::row_key(after.rows[i]));
}

proof fn lemma_pushed_key(table: TableView, row: RowView, key: Seq<char>)
    ensures
        active_tasks::pushed(table, row).seen.contains(active_tasks::row_key(row)),
        table.seen.contains(key) ==> active_tasks::pushed(table, row).seen.contains(key),
{
    let added = active_tasks::pushed(table, row).seen;
    if !table.seen.contains(active_tasks::row_key(row)) {
        assert(added[table.seen.len() as int] == active_tasks::row_key(row));
        if table.seen.contains(key) {
            let i = choose|i: int| 0 <= i < table.seen.len() && table.seen[i] == key;
            assert(added[i] == key);
        }
    }
}

proof fn lemma_subscription_key(
    table: TableView,
    tasks: Seq<JsonView>,
    submitted: Seq<bool>,
    agent: Seq<char>,
    role: i64,
    include_terminal: bool,
    now: i64,
    k: int,
)
    requires
        0 <= k < tasks.len(),
        active_tasks::is_shown(tasks[k], ActiveTaskKind::Subscription, include_terminal),
    ensures
        active_tasks::with_subscriptions(
            table,
            tasks,
            submitted,
            agent,
            role,
            include_terminal,
            now,
        ).seen.contains(listed_key(agent, tasks[k])),
    decreases tasks.len(),
{
    let n = tasks.len() - 1;
    let front = tasks.drop_last();
    let before = active_tasks::with_subscriptions(
        table,
        front,
        submitted,
        agent,
        role,
        include_terminal,
        now,
    );
    if k < n {
        lemma_subscription_key(
            table,
            front,
            submitted,
            agent,
            role,
            include_terminal,
            now,
            k,
        );
    }
    let row = active_tasks::row_of(
        tasks[n],
        ActiveTaskKind::Subscription,
        agent,
        role,
        submitted[n],
        now,
    );
    lemma_pushed_key(before, row, listed_key(agent, tasks[k]));
}

proof fn lemma_task_key(
    table: TableView,
    tasks: Seq<JsonView>,
    agent: Seq<char>,
    role: i64,
    include_terminal: bool,
    k: int,
)
    requires
        0 <= k < tasks.len(),
        active_tasks::ordinary_kind(tasks[k]) is Some,
        active_tasks::is_shown(tasks[k], ActiveTaskKind::OneTime, include_terminal),
    ensures
        active_tasks::with_ordinary(table, tasks, agent, role, include_terminal).seen.contains(
            listed_key(agent, tasks[k]),
        ),
    decreases tasks.len(),
{
    let front = tasks.drop_last();
    let before = active_tasks::with_ordinary(table, front, agent, role, include_terminal);
    if k < tasks.len() - 1 {
        lemma_task_key(table, front, agent, role, include_terminal, k);
    }
    let row = active_tasks::row_of(
        tasks.last(),
        ActiveTaskKind::OneTime,
        agent,
        role,
        false,
        0,
    );
    lemma_pushed_key(before, row, listed_key(agent, tasks[k]));
}

proof fn lemma_path_key(
    table: TableView,
    answers: AnswersView,
    paths: nat,
    include_terminal: bool,
    now: i64,
    p: int,
    k: int,
)
    requires
        active_tasks::is_table(table.rows, table.seen),
        0 <= p < paths <= answers.subscriptions.len(),
        answers.subscriptions[p] matches Some(tasks) && 0 <= k < tasks.len()
            && active_tasks::is_shown(tasks[k], ActiveTaskKind::Subscription, include_terminal),
    ensures
        with_paths(table, answers, paths, include_terminal, now).seen.contains(
            listed_key(answers.queries.agent_id, answers.subscriptions[p]->0[k]),
        ),
    decreases paths,
{
    let last = paths - 1;
    let before = with_paths(table, answers, last as nat, include_terminal, now);
    let key = listed_key(answers.queries.agent_id, answers.subscriptions[p]->0[k]);
    if p == last {
        lemma_subscription_key(
            before,
            answers.subscriptions[p]->0,
            answers.submitted[p],
            answers.queries.agent_id,
            answers.queries.role,
            include_terminal,
            now,
            k,
        );
    } else {
        lemma_path_key(table, answers, last as nat, include_terminal, now, p, k);
        lemma_paths_extend(table, answers, last as nat, include_terminal, now);
        if let Some(tasks) = answers.subscriptions[last] {
            active_tasks::subscriptions_keep_earlier_rows(
                before,
                tasks,
                answers.submitted[last],
                answers.queries.agent_id,
                answers.queries.role,
                include_terminal,
                now,
            );
            lemma_keys_kept(
                with_paths(table, answers, paths, include_terminal, now),
                before,
                key,
            );
        }
    }
}

/// The agent and the job of every shown subscription that came back have a row in
/// the listing: its own, or one listed before it.
pub proof fn shown_subscriptions_are_listed(
    answers: Seq<AnswersView>,
    include_terminal: bool,
    now: i64,
    i: int,
    p: int,
    k: int,
)
    requires
        0 <= i < answers.len(),
        0 <= p < answers[i].subscriptions.len(),
        answers[i].subscriptions[p] matches Some(tasks) && 0 <= k < tasks.len()
            && active_tasks::is_shown(tasks[k], ActiveTaskKind::Subscription, include_terminal),
    ensures
        active_tasks::row_keys(
            gathered_rows(answers, include_terminal, now).rows,
        ).contains(listed_key(answers[i].queries.agent_id, answers[i].subscriptions[p]->0[k])),
{
    let one = answers[i];
    let key = listed_key(one.queries.agent_id, one.subscriptions[p]->0[k]);
    let before = gathered_rows(answers.take(i), include_terminal, now);
    let paths = one.subscriptions.len();
    let subscribed = with_paths(before, one, paths, include_terminal, now);
    listings_are_tables(answers.take(i), include_terminal, now);
    lemma_path_key(before, one, paths, include_terminal, now, p, k);
    subscriptions_stand_before_tasks(before, one, include_terminal, now);
    lemma_keys_kept(with_agent(before, one, include_terminal, now), subscribed, key);
    lemma_agent_key_is_listed(answers, include_terminal, now, i, key);
}

/// The agent and the job of every shown one-time task that came back have a row in
/// the listing: its own, or one listed before it.
pub proof fn shown_tasks_are_listed(
    answers: Seq<AnswersView>,
    include_terminal: bool,
    now: i64,
    i: int,
    k: int,
)
    requires
        0 <= i < answers.len(),
        answers[i].tasks matches Some(tasks) && 0 <= k < tasks.len()
            && active_tasks::ordinary_kind(tasks[k]) is Some && active_tasks::is_shown(
            tasks[k],
            ActiveTaskKind::OneTime,
            include_terminal,
        ),
    ensures
        active_tasks::row_keys(
            gathered_rows(answers, include_terminal, now).rows,
        ).contains(listed_key(answers[i].queries.agent_id, answers[i].tasks->0[k])),
{
    let one = answers[i];
    let before = gathered_rows(answers.take(i), include_terminal, now);
    let subscribed = with_paths(
        before,
        one,
        one.subscriptions.len(),
        include_terminal,
        now,
    );
    lemma_task_key(
        subscribed,
        one.tasks->0,
        one.queries.agent_id,
        one.queries.role,
        include_terminal,
        k,
    );
    lemma_agent_key_is_listed(
        answers,
        include_terminal,
        now,
        i,
        listed_key(one.queries.agent_id, one.tasks->0[k]),
    );
}

proof fn lemma_agent_key_is_listed(
    answers: Seq<AnswersView>,
    include_terminal: bool,
    now: i64,
    i: int,
    key: Seq<char>,
)
    requires
        0 <= i < answers.len(),
        with_agent(
            gathered_rows(answers.take(i), include_terminal, now),
            answers[i],
            include_terminal,
            now,
        ).seen.contains(key),
    ensures
        active_tasks::row_keys(
            gathered_rows(answers, include_terminal, now).rows,
        ).contains(key),
{
    let upto = answers.take(i + 1);
    assert(upto.drop_last() =~= answers.take(i));
    assert(upto.last() == answers[i]);
    listings_are_tables(upto, include_terminal, now);
    listings_are_tables(answers, include_terminal, now);
    later_agents_keep_earlier_rows(answers, i + 1, include_terminal, now);
    lemma_keys_kept(
        gathered_rows(answers, include_terminal, now),
        gathered_rows(upto, include_terminal, now),
        key,
    );
}

} // verus!
