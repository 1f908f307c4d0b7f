//! Active tasks of an account: the rows shown for its agents.

use vstd::prelude::*;
use vstd::string::StringExecFns;

use crate::deadline::utc_now_seconds;
use crate::events;
use crate::events::contains_text;
use crate::identity;
use crate::identity::role_code_field;
use crate::json;
use crate::json::{string_field_from_keys, Json, JsonView};
use crate::query;
use crate::query::{
    integer_field, parse_role_arg, role_name, status_copy_for_task_type_at, status_name,
    subscription_code_field, subscription_status_name,
};
use crate::text;

verus! {

/// Which registry a task is listed in.
#[derive(Debug, Clone, Copy, PartialEq, Eq, Structural)]
pub enum ActiveTaskKind {
    OneTime,
    Subscription,
}

/// Whether a status still asks for something to be done. An expired task is
/// settled already.
pub open spec fn is_open_status(kind: ActiveTaskKind, code: i64) -> bool {
    match kind {
        ActiveTaskKind::OneTime => 0 <= code <= 4,
        ActiveTaskKind::Subscription => code == -1 || code == 0 || code == 1 || code == 3 || code
            == 4,
    }
}

/// Whether a status still asks for something to be done.
pub fn is_non_terminal(kind: ActiveTaskKind, code: i64) -> (r: bool)
    ensures
        r == is_open_status(kind, code),
{
    match kind {
        ActiveTaskKind::OneTime => 0 <= code && code <= 4,
        ActiveTaskKind::Subscription => code == -1 || code == 0 || code == 1 || code == 3 || code
            == 4,
    }
}

/// Whether a job id can be shortened: it is short as it is, or its first six
/// and last four bytes are whole characters.
pub open spec fn can_shorten(id: Seq<char>) -> bool {
    let bytes = vstd::utf8::encode_utf8(id);
    bytes.len() < 12 || (vstd::utf8::is_char_boundary(bytes, 6) && vstd::utf8::is_char_boundary(
        bytes,
        bytes.len() - 4,
    ))
}

/// A job id for display: as it is if it has less than twelve bytes, else its
/// first six and last four bytes.
pub open spec fn shortened(id: Seq<char>) -> Seq<char> {
    let bytes = vstd::utf8::encode_utf8(id);
    if bytes.len() < 12 {
        id
    } else {
        vstd::utf8::decode_utf8(bytes.subrange(0, 6)) + "…"@ + vstd::utf8::decode_utf8(
            bytes.subrange(bytes.len() - 4, bytes.len() as int),
        )
    }
}

/// Whether a job id can be shortened.
pub fn is_shortenable(jid: &str) -> (r: bool)
    ensures
        r == can_shorten(jid@),
{
    let n: usize = jid.as_bytes().len();
    n < 12 || (jid.is_char_boundary(6) && jid.is_char_boundary(n - 4))
}

/// A job id for display.
pub fn short_job_id(jid: &str) -> (r: String)
    requires
        can_shorten(jid@),
    ensures
        r@ == shortened(jid@),
{
    let n: usize = jid.as_bytes().len();
    if n < 12 {
        return jid.to_string();
    }
    let head = jid.split_at(6).0;
    let tail = jid.split_at(n - 4).1;
    proof {
        vstd::utf8::encode_utf8_decode_utf8(head@);
        vstd::utf8::encode_utf8_decode_utf8(tail@);
    }
    head.to_string().concat("…").concat(tail)
}

/// Every ASCII job id can be shortened: to its first six and last four
/// characters, if it has twelve or more.
pub proof fn ascii_ids_can_be_shortened(id: Seq<char>)
    requires
        vstd::utf8::is_ascii_chars(id),
    ensures
        can_shorten(id),
        shortened(id) == (if id.len() < 12 {
            id
        } else {
            id.take(6) + "…"@ + id.skip(id.len() - 4)
        }),
{
    vstd::utf8::is_ascii_chars_encode_utf8(id);
    if id.len() >= 12 {
        lemma_ascii_split(id, 6);
        lemma_ascii_split(id, id.len() - 4);
    }
}

proof fn lemma_ascii_split(id: Seq<char>, at: int)
    requires
        vstd::utf8::is_ascii_chars(id),
        0 <= at <= id.len(),
    ensures
        vstd::utf8::is_char_boundary(vstd::utf8::encode_utf8(id), at),
        vstd::utf8::decode_utf8(vstd::utf8::encode_utf8(id).subrange(0, at)) == id.take(at),
        vstd::utf8::decode_utf8(
            vstd::utf8::encode_utf8(id).subrange(at, vstd::utf8::encode_utf8(id).len() as int),
        ) == id.skip(at),
{
    let bytes = vstd::utf8::encode_utf8(id);
    let head = id.take(at);
    let tail = id.skip(at);
    vstd::utf8::is_ascii_chars_encode_utf8(id);
    vstd::utf8::is_ascii_chars_encode_utf8(head);
    vstd::utf8::is_ascii_chars_encode_utf8(tail);
    vstd::utf8::encode_utf8_valid_utf8(id);
    assert(bytes.subrange(0, at) =~= vstd::utf8::encode_utf8(head)) by {
        assert forall|i: int| 0 <= i < at implies bytes[i] == vstd::utf8::encode_utf8(head)[i] by {
            assert(id[i] == head[i]);
        }
    }
    assert(bytes.subrange(at, bytes.len() as int) =~= vstd::utf8::encode_utf8(tail)) by {
        assert forall|i: int| 0 <= i < tail.len() implies bytes[at + i]
            == vstd::utf8::encode_utf8(tail)[i] by {
            assert(id[at + i] == tail[i]);
        }
    }
    vstd::utf8::encode_utf8_decode_utf8(head);
    vstd::utf8::encode_utf8_decode_utf8(tail);
    if at == bytes.len() {
        vstd::utf8::is_char_boundary_start_end_of_seq(bytes);
    } else {
        vstd::utf8::is_char_boundary_iff_not_is_continuation_byte(bytes, at);
        assert(id[at] as u8 == bytes[at]);
        assert('\0' <= id[at] <= '\u{7f}');
    }
}

/// The kind of a task in the ordinary registry. Subscriptions are listed in
/// their own, so a row of one here is not shown.
pub open spec fn ordinary_kind(task: JsonView) -> Option<ActiveTaskKind> {
    match query::integer_at(task, "jobType"@) {
        Some(n) => if n == 0 {
            Some(ActiveTaskKind::OneTime)
        } else {
            None
        },
        None => Some(ActiveTaskKind::OneTime),
    }
}

/// The kind of a task in the ordinary registry, if it is shown.
pub fn ordinary_task_kind(task: &Json) -> (r: Option<ActiveTaskKind>)
    ensures
        r == ordinary_kind(task@),
{
    match integer_field(task, "jobType") {
        Some(n) => if n == 0 {
            Some(ActiveTaskKind::OneTime)
        } else {
            None
        },
        None => Some(ActiveTaskKind::OneTime),
    }
}

/// Subscription rows of the ordinary registry are never shown as one-time tasks.
pub proof fn ordinary_registry_shows_no_subscriptions(task: JsonView)
    requires
        query::integer_at(task, "jobType"@) == Some(1i64),
    ensures
        ordinary_kind(task) is None,
{
}

/// The items of a response: its `list`, or the response itself.
pub open spec fn items_of(value: JsonView) -> Seq<JsonView> {
    match json::member(value, "list"@) {
        Some(JsonView::Array(items)) => items,
        _ => match value {
            JsonView::Array(items) => items,
            _ => Seq::empty(),
        },
    }
}

fn cloned_items(items: &Vec<Json>) -> (r: Vec<Json>)
    ensures
        json::jsons_view(r@) == json::jsons_view(items@),
{
    let mut out: Vec<Json> = Vec::new();
    let mut i: usize = 0;
    while i < items.len()
        invariant
            i <= items.len(),
            out@.len() == i,
            forall|k: int| 0 <= k < i ==> (#[trigger] out@[k])@ == items@[k]@,
        decreases items.len() - i,
    {
        out.push(items[i].clone());
        i = i + 1;
    }
    assert(json::jsons_view(out@) =~= json::jsons_view(items@));
    out
}

/// The items of a response: its `list`, or the response itself.
pub fn list_items(value: &Json) -> (r: Vec<Json>)
    ensures
        json::jsons_view(r@) == items_of(value@),
{
    if let Some(list) = value.get("list") {
        if let Some(items) = list.as_array() {
            return cloned_items(items);
        }
    }
    match value.as_array() {
        Some(items) => cloned_items(items),
        None => {
            let out: Vec<Json> = Vec::new();
            assert(json::jsons_view(out@) =~= Seq::empty());
            out
        },
    }
}

/// A row of the active tasks.
#[derive(Debug, PartialEq, Eq)]
pub struct ActiveTaskRow {
    pub job_id: String,
    pub short_job_id: String,
    pub task_type: String,
    pub status: String,
    pub status_label: String,
    pub status_description: String,
    pub status_code: i64,
    pub title: String,
    pub token_amount: String,
    pub token_symbol: String,
    pub my_agent_id: String,
    pub my_role: String,
    pub counterparty_agent_id: Option<String>,
    pub counterparty_role: Option<String>,
}

/// The model of a row of the active tasks.
#[verifier::ext_equal]
pub struct RowView {
    pub job_id: Seq<char>,
    pub short_job_id: Seq<char>,
    pub task_type: Seq<char>,
    pub status: Seq<char>,
    pub status_label: Seq<char>,
    pub status_description: Seq<char>,
    pub status_code: i64,
    pub title: Seq<char>,
    pub token_amount: Seq<char>,
    pub token_symbol: Seq<char>,
    pub my_agent_id: Seq<char>,
    pub my_role: Seq<char>,
    pub counterparty_agent_id: Option<Seq<char>>,
    pub counterparty_role: Option<Seq<char>>,
}

impl View for ActiveTaskRow {
    type V = RowView;

    open spec fn view(&self) -> RowView {
        RowView {
            job_id: self.job_id@,
            short_job_id: self.short_job_id@,
            task_type: self.task_type@,
            status: self.status@,
            status_label: self.status_label@,
            status_description: self.status_description@,
            status_code: self.status_code,
            title: self.title@,
            token_amount: self.token_amount@,
            token_symbol: self.token_symbol@,
            my_agent_id: self.my_agent_id@,
            my_role: self.my_role@,
            counterparty_agent_id: text::opt_view(self.counterparty_agent_id),
            counterparty_role: text::opt_view(self.counterparty_role),
        }
    }
}

/// The models of a list of rows.
pub open spec fn rows_view(rows: Seq<ActiveTaskRow>) -> Seq<RowView> {
    Seq::new(rows.len(), |i: int| rows[i]@)
}

/// The status code of a listed task.
pub open spec fn listed_code(task: JsonView, kind: ActiveTaskKind) -> Option<i64> {
    match kind {
        ActiveTaskKind::OneTime => query::integer_at(task, "status"@),
        ActiveTaskKind::Subscription => query::subscription_code(task),
    }
}

/// The job id of a listed task.
pub open spec fn listed_job(task: JsonView) -> Seq<char> {
    json::str_or_empty(task, seq!["jobId"@, "subId"@])
}

/// Whether a listed task is shown: it has a status and a job id, and is open
/// unless closed ones are asked for.
pub open spec fn is_shown(task: JsonView, kind: ActiveTaskKind, include_terminal: bool) -> bool {
    &&& listed_code(task, kind) matches Some(code) && (include_terminal || is_open_status(
        kind,
        code,
    ))
    &&& listed_job(task).len() > 0
}

/// The other party of a task, as an agent of a role sees it.
pub open spec fn counterparty(task: JsonView, role: i64) -> Option<Seq<char>> {
    let id = if role == 1 {
        json::str_or_empty(task, seq!["providerAgentId"@, "aspAgentId"@])
    } else if role == 2 {
        json::str_or_empty(task, seq!["buyerAgentId"@, "userAgentId"@])
    } else {
        Seq::empty()
    };
    if id.len() > 0 {
        Some(id)
    } else {
        None
    }
}

/// The role of the other party of a task, as an agent of a role sees it.
pub open spec fn counterparty_role(role: i64) -> Option<Seq<char>> {
    if role == 1 {
        Some("asp"@)
    } else if role == 2 {
        Some("user"@)
    } else {
        None
    }
}

/// The copy on a listed task at a time.
pub open spec fn listed_copy(
    task: JsonView,
    kind: ActiveTaskKind,
    code: i64,
    user_close_submitted: bool,
    now: i64,
) -> query::CopyView {
    query::copy_for_type(
        Some(
            match kind {
                ActiveTaskKind::OneTime => 0i64,
                ActiveTaskKind::Subscription => 1i64,
            },
        ),
        code,
        task,
        user_close_submitted,
        now,
    )
}

/// The row of a listed task at a time.
pub open spec fn row_of(
    task: JsonView,
    kind: ActiveTaskKind,
    agent: Seq<char>,
    role: i64,
    user_close_submitted: bool,
    now: i64,
) -> RowView {
    let code = listed_code(task, kind)->0;
    let copy = listed_copy(task, kind, code, user_close_submitted, now);
    RowView {
        job_id: listed_job(task),
        short_job_id: shortened(listed_job(task)),
        task_type: match kind {
            ActiveTaskKind::OneTime => "one_time"@,
            ActiveTaskKind::Subscription => "subscription"@,
        },
        status: match kind {
            ActiveTaskKind::OneTime => query::status_key(code),
            ActiveTaskKind::Subscription => query::subscription_key(code),
        },
        status_label: copy.label,
        status_description: copy.description,
        status_code: code,
        title: json::str_or_empty(task, seq!["title"@, "jobName"@, "serviceName"@]),
        token_amount: json::str_or_empty(task, seq!["serviceTokenAmount"@, "paymentTokenAmount"@, "tokenAmount"@]),
        token_symbol: json::str_or_empty(task, seq!["serviceTokenSymbol"@, "paymentTokenSymbol"@, "tokenSymbol"@]),
        my_agent_id: agent,
        my_role: query::role_key(role),
        counterparty_agent_id: counterparty(task, role),
        counterparty_role: counterparty_role(role),
    }
}

/// The status code of a listed task.
fn listed_status_code(task: &Json, kind: ActiveTaskKind) -> (r: Option<i64>)
    ensures
        r == listed_code(task@, kind),
{
    match kind {
        ActiveTaskKind::OneTime => integer_field(task, "status"),
        ActiveTaskKind::Subscription => subscription_code_field(task),
    }
}

/// The job id of a listed task; empty where it has none.
pub fn listed_job_id(task: &Json) -> (r: &str)
    ensures
        r@ == listed_job(task@),
{
    string_field_from_keys(task, &["jobId", "subId"])
}

/// Whether a listed task is shown.
pub fn is_shown_task(task: &Json, kind: ActiveTaskKind, include_terminal: bool) -> (r: bool)
    ensures
        r == is_shown(task@, kind, include_terminal),
{
    let wanted = match listed_status_code(task, kind) {
        Some(code) => include_terminal || is_non_terminal(kind, code),
        None => false,
    };
    wanted && !listed_job_id(task).is_empty()
}

/// Whether the row of a listed task can be made: it is not shown, or its job id
/// can be shortened.
pub open spec fn can_show(task: JsonView, kind: ActiveTaskKind, include_terminal: bool) -> bool {
    is_shown(task, kind, include_terminal) ==> can_shorten(listed_job(task))
}

/// Whether the row of a listed task can be made.
pub fn is_showable(task: &Json, kind: ActiveTaskKind, include_terminal: bool) -> (r: bool)
    ensures
        r == can_show(task@, kind, include_terminal),
{
    !is_shown_task(task, kind, include_terminal) || is_shortenable(listed_job_id(task))
}

fn counterparty_of(task: &Json, role: i64) -> (r: (Option<String>, Option<String>))
    ensures
        text::opt_view(r.0) == counterparty(task@, role),
        text::opt_view(r.1) == counterparty_role(role),
{
    let (id, other) = match role {
        1 => (string_field_from_keys(task, &["providerAgentId", "aspAgentId"]), "asp"),
        2 => (string_field_from_keys(task, &["buyerAgentId", "userAgentId"]), "user"),
        _ => {
            return (None, None);
        },
    };
    let found = if id.is_empty() {
        None
    } else {
        Some(id.to_string())
    };
    (found, Some(other.to_string()))
}

/// The row of a listed task at a time, if it is shown. `user_close_submitted`
/// says that a closure of the subscription by the user is on record.
pub fn active_task_row_at(
    task: &Json,
    kind: ActiveTaskKind,
    agent_id: &str,
    role: i64,
    include_terminal: bool,
    user_close_submitted: bool,
    now: i64,
) -> (r: Option<ActiveTaskRow>)
    requires
        can_show(task@, kind, include_terminal),
    ensures
        match r {
            Some(row) => is_shown(task@, kind, include_terminal) && row@ == row_of(
                task@,
                kind,
                agent_id@,
                role,
                user_close_submitted,
                now,
            ),
            None => !is_shown(task@, kind, include_terminal),
        },
{
    let status_code = match listed_status_code(task, kind) {
        Some(code) => code,
        None => {
            return None;
        },
    };
    if !include_terminal && !is_non_terminal(kind, status_code) {
        return None;
    }
    let job_id = listed_job_id(task);
    if job_id.is_empty() {
        return None;
    }
    let (task_type, status, type_code) = match kind {
        ActiveTaskKind::OneTime => ("one_time", status_name(status_code), 0i64),
        ActiveTaskKind::Subscription => (
            "subscription",
            subscription_status_name(status_code),
            1i64,
        ),
    };
    let (status_label, status_description) = status_copy_for_task_type_at(
        Some(type_code),
        status_code,
        task,
        user_close_submitted,
        now,
    );
    let (counterparty_agent_id, counterparty_role) = counterparty_of(task, role);
    Some(
        ActiveTaskRow {
            job_id: job_id.to_string(),
            short_job_id: short_job_id(job_id),
            task_type: task_type.to_string(),
            status: status.to_string(),
            status_label,
            status_description,
            status_code,
            title: string_field_from_keys(task, &["title", "jobName", "serviceName"]).to_string(),
            token_amount: string_field_from_keys(task, &["serviceTokenAmount", "paymentTokenAmount", "tokenAmount"]).to_string(),
            token_symbol: string_field_from_keys(task, &["serviceTokenSymbol", "paymentTokenSymbol", "tokenSymbol"]).to_string(),
            my_agent_id: agent_id.to_string(),
            my_role: role_name(role).to_string(),
            counterparty_agent_id,
            counterparty_role,
        },
    )
}

/// Whether a row is that of a listed task at some time.
pub open spec fn is_row_of(
    row: RowView,
    task: JsonView,
    kind: ActiveTaskKind,
    agent: Seq<char>,
    role: i64,
    user_close_submitted: bool,
) -> bool {
    exists|now: i64|
        row == #[trigger] row_of(task, kind, agent, role, user_close_submitted, now)
}

/// The row of a listed task now, if it is shown. `user_close_submitted` says that
/// a closure of the subscription by the user is on record.
pub fn active_task_row(
    task: &Json,
    kind: ActiveTaskKind,
    agent_id: &str,
    role: i64,
    include_terminal: bool,
    user_close_submitted: bool,
) -> (r: Option<ActiveTaskRow>)
    requires
        can_show(task@, kind, include_terminal),
    ensures
        match r {
            Some(row) => is_shown(task@, kind, include_terminal) && is_row_of(
                row@,
                task@,
                kind,
                agent_id@,
                role,
                user_close_submitted,
            ),
            None => !is_shown(task@, kind, include_terminal),
        },
{
    active_task_row_at(
        task,
        kind,
        agent_id,
        role,
        include_terminal,
        user_close_submitted,
        utc_now_seconds(),
    )
}

/// What tells two rows apart: the agent and the job.
pub open spec fn row_key(row: RowView) -> Seq<char> {
    row.my_agent_id + "\0"@ + row.job_id
}

/// The keys of a list of rows.
pub open spec fn row_keys(rows: Seq<RowView>) -> Seq<Seq<char>> {
    Seq::new(rows.len(), |i: int| row_key(rows[i]))
}

/// Rows and the keys seen so far: each row has a key of its own, and those are
/// the keys seen.
pub open spec fn is_table(rows: Seq<RowView>, seen: Seq<Seq<char>>) -> bool {
    seen == row_keys(rows) && seen.no_duplicates()
}

/// Adds a row, unless one of its agent and job is there: the first stays.
pub fn push_unique_active_task(
    rows: &mut Vec<ActiveTaskRow>,
    seen: &mut Vec<String>,
    row: ActiveTaskRow,
)
    ensures
        ({
            let known = events::texts_view(old(seen)@).contains(row_key(row@));
            &&& rows_view(final(rows)@) == (if known {
                rows_view(old(rows)@)
            } else {
                rows_view(old(rows)@).push(row@)
            })
            &&& events::texts_view(final(seen)@) == (if known {
                events::texts_view(old(seen)@)
            } else {
                events::texts_view(old(seen)@).push(row_key(row@))
            })
        }),
        is_table(rows_view(old(rows)@), events::texts_view(old(seen)@)) ==> is_table(
            rows_view(final(rows)@),
            events::texts_view(final(seen)@),
        ),
{
    let ghost rows_before = rows_view(rows@);
    let ghost seen_before = events::texts_view(seen@);
    let key = row.my_agent_id.clone().concat("\0").concat(row.job_id.as_str());
    if !contains_text(seen, key.as_str()) {
        proof {
            let added = rows_before.push(row@);
            let keys = seen_before.push(row_key(row@));
            if is_table(rows_before, seen_before) {
                assert(row_keys(added) =~= keys);
                assert(keys.no_duplicates());
            }
        }
        rows.push(row);
        seen.push(key);
        assert(rows_view(rows@) =~= rows_before.push(row@));
        assert(events::texts_view(seen@) =~= seen_before.push(row_key(row@)));
    }
}

/// In a table no two rows have the same agent and job.
pub proof fn tables_have_no_repetition(
    rows: Seq<RowView>,
    seen: Seq<Seq<char>>,
    i: int,
    j: int,
)
    requires
        is_table(rows, seen),
        0 <= i < j < rows.len(),
    ensures
        row_key(rows[i]) != row_key(rows[j]),
        !(rows[i].my_agent_id == rows[j].my_agent_id && rows[i].job_id == rows[j].job_id),
{
    assert(seen[i] == row_key(rows[i]));
    assert(seen[j] == row_key(rows[j]));
}

/// The rows gathered so far, and the keys seen.
#[derive(Debug, PartialEq, Eq)]
pub struct ActiveTaskTable {
    pub rows: Vec<ActiveTaskRow>,
    pub seen: Vec<String>,
}

/// The model of the rows gathered so far.
#[verifier::ext_equal]
pub struct TableView {
    pub rows: Seq<RowView>,
    pub seen: Seq<Seq<char>>,
}

impl View for ActiveTaskTable {
    type V = TableView;

    open spec fn view(&self) -> TableView {
        TableView { rows: rows_view(self.rows@), seen: events::texts_view(self.seen@) }
    }
}

impl ActiveTaskTable {
    /// A table without rows.
    pub fn new() -> (r: ActiveTaskTable)
        ensures
            r@.rows.len() == 0,
            is_table(r@.rows, r@.seen),
    {
        let r = ActiveTaskTable { rows: Vec::new(), seen: Vec::new() };
        assert(r@.seen =~= row_keys(r@.rows));
        r
    }
}

/// A table with a row added, unless one of its agent and job is there.
pub open spec fn pushed(table: TableView, row: RowView) -> TableView {
    if table.seen.contains(row_key(row)) {
        table
    } else {
        TableView { rows: table.rows.push(row), seen: table.seen.push(row_key(row)) }
    }
}

/// A table with the shown subscriptions of an agent added, in their order.
/// `submitted` says of each whether its closure is on record.
pub open spec fn with_subscriptions(
    table: TableView,
    tasks: Seq<JsonView>,
    submitted: Seq<bool>,
    agent: Seq<char>,
    role: i64,
    include_terminal: bool,
    now: i64,
) -> TableView
    decreases tasks.len(),
{
    if tasks.len() == 0 {
        table
    } else {
        let n = tasks.len() - 1;
        let before = with_subscriptions(
            table,
            tasks.drop_last(),
            submitted,
            agent,
            role,
            include_terminal,
            now,
        );
        if is_shown(tasks[n], ActiveTaskKind::Subscription, include_terminal) {
            pushed(
                before,
                row_of(tasks[n], ActiveTaskKind::Subscription, agent, role, submitted[n], now),
            )
        } else {
            before
        }
    }
}

/// A table with the shown one-time tasks of an agent added, in their order.
pub open spec fn with_ordinary(
    table: TableView,
    tasks: Seq<JsonView>,
    agent: Seq<char>,
    role: i64,
    include_terminal: bool,
) -> TableView
    decreases tasks.len(),
{
    if tasks.len() == 0 {
        table
    } else {
        let before = with_ordinary(table, tasks.drop_last(), agent, role, include_terminal);
        if ordinary_kind(tasks.last()) is Some && is_shown(
            tasks.last(),
            ActiveTaskKind::OneTime,
            include_terminal,
        ) {
            pushed(
                before,
                row_of(tasks.last(), ActiveTaskKind::OneTime, agent, role, false, 0),
            )
        } else {
            before
        }
    }
}

/// Adds the shown subscriptions of an agent to a table, as of a time.
pub fn add_subscription_rows_at(
    table: &mut ActiveTaskTable,
    tasks: &[Json],
    submitted: &[bool],
    agent_id: &str,
    role: i64,
    include_terminal: bool,
    now: i64,
)
    requires
        submitted@.len() == tasks@.len(),
        forall|i: int|
            0 <= i < tasks@.len() ==> can_show(
                (#[trigger] tasks@[i])@,
                ActiveTaskKind::Subscription,
                include_terminal,
            ),
    ensures
        final(table)@ == with_subscriptions(
            old(table)@,
            json::jsons_view(tasks@),
            submitted@,
            agent_id@,
            role,
            include_terminal,
            now,
        ),
{
    let ghost all = json::jsons_view(tasks@);
    let ghost start = table@;
    let mut i: usize = 0;
    while i < tasks.len()
        invariant
            i <= tasks@.len(),
            submitted@.len() == tasks@.len(),
            all == json::jsons_view(tasks@),
            forall|k: int|
                0 <= k < tasks@.len() ==> can_show(
                    (#[trigger] tasks@[k])@,
                    ActiveTaskKind::Subscription,
                    include_terminal,
                ),
            table@ == with_subscriptions(
                start,
                all.take(i as int),
                submitted@,
                agent_id@,
                role,
                include_terminal,
                now,
            ),
        decreases tasks@.len() - i,
    {
        let ghost next = all.take(i + 1);
        assert(next.drop_last() =~= all.take(i as int));
        assert(next[i as int] == tasks@[i as int]@);
        let row = active_task_row_at(
            &tasks[i],
            ActiveTaskKind::Subscription,
            agent_id,
            role,
            include_terminal,
            submitted[i],
            now,
        );
        if let Some(row) = row {
            push_unique_active_task(&mut table.rows, &mut table.seen, row);
        }
        i = i + 1;
    }
    assert(all.take(all.len() as int) =~= all);
}

/// Whether a table comes from another by adding the shown subscriptions of an
/// agent at some time.
pub open spec fn is_with_subscriptions(
    after: TableView,
    before: TableView,
    tasks: Seq<JsonView>,
    submitted: Seq<bool>,
    agent: Seq<char>,
    role: i64,
    include_terminal: bool,
) -> bool {
    exists|now: i64|
        after == #[trigger] with_subscriptions(
            before,
            tasks,
            submitted,
            agent,
            role,
            include_terminal,
            now,
        )
}

/// Adds the shown subscriptions of an agent to a table, as of now.
pub fn add_subscription_rows(
    table: &mut ActiveTaskTable,
    tasks: &[Json],
    submitted: &[bool],
    agent_id: &str,
    role: i64,
    include_terminal: bool,
)
    requires
        submitted@.len() == tasks@.len(),
        forall|i: int|
            0 <= i < tasks@.len() ==> can_show(
                (#[trigger] tasks@[i])@,
                ActiveTaskKind::Subscription,
                include_terminal,
            ),
    ensures
        is_with_subscriptions(
            final(table)@,
            old(table)@,
            json::jsons_view(tasks@),
            submitted@,
            agent_id@,
            role,
            include_terminal,
        ),
{
    add_subscription_rows_at(
        table,
        tasks,
        submitted,
        agent_id,
        role,
        include_terminal,
        utc_now_seconds(),
    );
}

/// Adds the shown one-time tasks of an agent to a table.
pub fn add_task_rows(
    table: &mut ActiveTaskTable,
    tasks: &[Json],
    agent_id: &str,
    role: i64,
    include_terminal: bool,
)
    requires
        forall|i: int|
            0 <= i < tasks@.len() && ordinary_kind((#[trigger] tasks@[i])@) is Some ==> can_show(
                tasks@[i]@,
                ActiveTaskKind::OneTime,
                include_terminal,
            ),
    ensures
        final(table)@ == with_ordinary(
            old(table)@,
            json::jsons_view(tasks@),
            agent_id@,
            role,
            include_terminal,
        ),
{
    let ghost all = json::jsons_view(tasks@);
    let ghost start = table@;
    let mut i: usize = 0;
    while i < tasks.len()
        invariant
            i <= tasks@.len(),
            all == json::jsons_view(tasks@),
            forall|k: int|
                0 <= k < tasks@.len() && ordinary_kind((#[trigger] tasks@[k])@) is Some
                    ==> can_show(tasks@[k]@, ActiveTaskKind::OneTime, include_terminal),
            table@ == with_ordinary(
                start,
                all.take(i as int),
                agent_id@,
                role,
                include_terminal,
            ),
        decreases tasks@.len() - i,
    {
        let ghost next = all.take(i + 1);
        assert(next.drop_last() =~= all.take(i as int));
        assert(next.last() == tasks@[i as int]@);
        if let Some(kind) = ordinary_task_kind(&tasks[i]) {
            let row = active_task_row_at(
                &tasks[i],
                kind,
                agent_id,
                role,
                include_terminal,
                false,
                0,
            );
            if let Some(row) = row {
                push_unique_active_task(&mut table.rows, &mut table.seen, row);
            }
        }
        i = i + 1;
    }
    assert(all.take(all.len() as int) =~= all);
}

/// Whether the rows of a table are all kept, in their places, by another, which
/// is a table where the first one is.
pub open spec fn extends(after: TableView, before: TableView) -> bool {
    &&& before.rows.len() <= after.rows.len()
    &&& after.rows.take(before.rows.len() as int) == before.rows
    &&& is_table(before.rows, before.seen) ==> is_table(after.rows, after.seen)
}

proof fn lemma_pushed_extends(table: TableView, row: RowView)
    ensures
        extends(pushed(table, row), table),
{
    let after = pushed(table, row);
    assert(after.rows.take(table.rows.len() as int) =~= table.rows);
    if is_table(table.rows, table.seen) && !table.seen.contains(row_key(row)) {
        assert(after.seen =~= row_keys(after.rows));
        assert(after.seen.no_duplicates());
    }
}

/// What keeps the rows of a table that keeps those of another keeps them too.
pub proof fn extending_is_transitive(a: TableView, b: TableView, c: TableView)
    requires
        extends(b, a),
        extends(c, b),
    ensures
        extends(c, a),
{
    assert(c.rows.take(a.rows.len() as int) =~= c.rows.take(b.rows.len() as int).take(
        a.rows.len() as int,
    ));
}

/// Adding subscriptions keeps the rows that are there.
pub proof fn subscriptions_keep_earlier_rows(
    table: TableView,
    tasks: Seq<JsonView>,
    submitted: Seq<bool>,
    agent: Seq<char>,
    role: i64,
    include_terminal: bool,
    now: i64,
)
    ensures
        extends(
            with_subscriptions(table, tasks, submitted, agent, role, include_terminal, now),
            table,
        ),
    decreases tasks.len(),
{
    if tasks.len() > 0 {
        let n = tasks.len() - 1;
        let front = tasks.drop_last();
        subscriptions_keep_earlier_rows(
            table,
            front,
            submitted,
            agent,
            role,
            include_terminal,
            now,
        );
        let before = with_subscriptions(
            table,
            front,
            submitted,
            agent,
            role,
            include_terminal,
            now,
        );
        let row = row_of(tasks[n], ActiveTaskKind::Subscription, agent, role, submitted[n], now);
        lemma_pushed_extends(before, row);
        extending_is_transitive(table, before, pushed(before, row));
    } else {
        assert(table.rows.take(table.rows.len() as int) =~= table.rows);
    }
}

/// Adding one-time tasks keeps the rows that are there: where a subscription of
/// an agent has the same job, its row stays and the other is not added.
pub proof fn one_time_tasks_keep_earlier_rows(
    table: TableView,
    tasks: Seq<JsonView>,
    agent: Seq<char>,
    role: i64,
    include_terminal: bool,
)
    ensures
        extends(with_ordinary(table, tasks, agent, role, include_terminal), table),
    decreases tasks.len(),
{
    if tasks.len() > 0 {
        let front = tasks.drop_last();
        one_time_tasks_keep_earlier_rows(table, front, agent, role, include_terminal);
        let before = with_ordinary(table, front, agent, role, include_terminal);
        let row = row_of(tasks.last(), ActiveTaskKind::OneTime, agent, role, false, 0);
        lemma_pushed_extends(before, row);
        extending_is_transitive(table, before, pushed(before, row));
    } else {
        assert(table.rows.take(table.rows.len() as int) =~= table.rows);
    }
}

/// A role that is none.
#[derive(Debug, PartialEq, Eq)]
pub struct UnknownRole {
    pub raw: String,
}

/// Whether an agent has a role, by its code.
pub open spec fn has_role(agent: JsonView, role: i64) -> bool {
    json::member(agent, "role"@) matches Some(value) && json::int_value(value) == Some(role)
}

/// The agents of a list that have a role.
pub open spec fn of_role(agents: Seq<JsonView>, role: i64) -> Seq<JsonView>
    decreases agents.len(),
{
    if agents.len() == 0 {
        Seq::empty()
    } else if has_role(agents.last(), role) {
        of_role(agents.drop_last(), role).push(agents.last())
    } else {
        of_role(agents.drop_last(), role)
    }
}

/// The agents that a query is about: all, or those of the named role.
pub fn agents_of_role(agents: Vec<Json>, role_filter: Option<&str>) -> (r: Result<
    Vec<Json>,
    UnknownRole,
>)
    ensures
        match r {
            Ok(kept) => match role_filter {
                None => json::jsons_view(kept@) == json::jsons_view(agents@),
                Some(raw) => query::role_of_name(raw@) matches Some(role) && json::jsons_view(
                    kept@,
                ) == of_role(json::jsons_view(agents@), role),
            },
            Err(error) => role_filter matches Some(raw) && query::role_of_name(raw@) is None
                && error.raw@ == raw@,
        },
{
    let raw = match role_filter {
        None => {
            return Ok(agents);
        },
        Some(raw) => raw,
    };
    let want = match parse_role_arg(raw) {
        Some(want) => want,
        None => {
            return Err(UnknownRole { raw: raw.to_string() });
        },
    };
    let ghost all = json::jsons_view(agents@);
    let mut kept: Vec<Json> = Vec::new();
    assert(json::jsons_view(kept@) =~= of_role(all.take(0), want));
    let mut i: usize = 0;
    while i < agents.len()
        invariant
            i <= agents.len(),
            all == json::jsons_view(agents@),
            json::jsons_view(kept@) == of_role(all.take(i as int), want),
        decreases agents.len() - i,
    {
        let ghost next = all.take(i + 1);
        assert(next.drop_last() =~= all.take(i as int));
        assert(next.last() == agents@[i as int]@);
        let matches = match agents[i].get("role") {
            Some(role) => match role.as_i64() {
                Some(code) => code == want,
                None => false,
            },
            None => false,
        };
        if matches {
            let agent = agents[i].clone();
            kept.push(agent);
            assert(json::jsons_view(kept@) =~= of_role(next, want));
        }
        i = i + 1;
    }
    assert(all.take(all.len() as int) =~= all);
    Ok(kept)
}

/// The path of the one-time tasks of an agent.
pub const MY_TASKS_PATH: &'static str = "/priapi/v1/aieco/task/my?page=1&page_size=100";

/// The path of the subscriptions of an agent with a type of status.
pub open spec fn subscription_path(status_type: i64) -> Seq<char> {
    "/priapi/v1/aieco/task/subscribe/my?page=1&pageSize=100&statusType="@ + text::decimal(
        status_type as int,
    )
}

fn subscription_path_text(status_type: i64) -> (r: String)
    ensures
        r@ == subscription_path(status_type),
{
    let digits = text::i64_to_text(status_type);
    "/priapi/v1/aieco/task/subscribe/my?page=1&pageSize=100&statusType=".to_string().concat(
        digits.as_str(),
    )
}

/// What is asked for one agent: its subscriptions first, so that their rows win,
/// and its one-time tasks.
#[derive(Debug, PartialEq, Eq)]
pub struct AgentQueries {
    pub agent_id: String,
    pub role: i64,
    pub subscription_paths: Vec<String>,
    pub task_path: String,
}

/// The model of what is asked for one agent.
#[verifier::ext_equal]
pub struct QueriesView {
    pub agent_id: Seq<char>,
    pub role: i64,
    pub subscription_paths: Seq<Seq<char>>,
    pub task_path: Seq<char>,
}

impl View for AgentQueries {
    type V = QueriesView;

    open spec fn view(&self) -> QueriesView {
        QueriesView {
            agent_id: self.agent_id@,
            role: self.role,
            subscription_paths: events::texts_view(self.subscription_paths@),
            task_path: self.task_path@,
        }
    }
}

/// The paths of the subscriptions that are asked for: users and ASPs have some,
/// and closed ones are asked for where they are to be shown.
pub open spec fn subscription_paths_of(role: i64, include_terminal: bool) -> Seq<Seq<char>> {
    if role != 1 && role != 2 {
        Seq::empty()
    } else if include_terminal {
        seq![subscription_path(1), subscription_path(2)]
    } else {
        seq![subscription_path(1)]
    }
}

/// What is asked for an agent; nothing for one without an id.
pub open spec fn queries_of(agent: JsonView, include_terminal: bool) -> Option<QueriesView> {
    match json::str_at(agent, "agentId"@) {
        Some(id) => if id.len() > 0 {
            Some(
                QueriesView {
                    agent_id: id,
                    role: identity::role_code(agent),
                    subscription_paths: subscription_paths_of(
                        identity::role_code(agent),
                        include_terminal,
                    ),
                    task_path: MY_TASKS_PATH@,
                },
            )
        } else {
            None
        },
        None => None,
    }
}

/// What is asked for an agent; nothing for one without an id.
pub fn agent_queries(agent: &Json, include_terminal: bool) -> (r: Option<AgentQueries>)
    ensures
        match r {
            Some(queries) => queries_of(agent@, include_terminal) == Some(queries@),
            None => queries_of(agent@, include_terminal) is None,
        },
{
    let agent_id = match agent.str_at("agentId") {
        Some(id) => id,
        None => {
            return None;
        },
    };
    if agent_id.is_empty() {
        return None;
    }
    let role: i64 = role_code_field(agent);
    let mut paths: Vec<String> = Vec::new();
    if role == 1 || role == 2 {
        paths.push(subscription_path_text(1));
        if include_terminal {
            paths.push(subscription_path_text(2));
        }
    }
    assert(events::texts_view(paths@) =~= subscription_paths_of(role, include_terminal));
    Some(
        AgentQueries {
            agent_id: agent_id.to_string(),
            role,
            subscription_paths: paths,
            task_path: MY_TASKS_PATH.to_string(),
        },
    )
}

} // verus!
