//! The list of the tasks of an agent.

use vstd::prelude::*;
use vstd::string::StringExecFns;

use crate::events;
use crate::json;
use crate::json::{Json, JsonView};
use crate::query;
use crate::query::task_status_label;
use crate::status_query;
use crate::status_query::text_or_unknown;
use crate::text;
use crate::text::{text_eq, u64_to_text};

verus! {

/// Where a list of tasks comes from.
#[derive(Debug, PartialEq, Eq)]
pub enum ListRoute {
    /// The list of disputes has its own.
    Arbitration,
    /// Any other list is fetched under a path.
    Tasks(String),
}

/// The path of a page of tasks.
pub open spec fn list_path(page: int, limit: int, status: Option<Seq<char>>) -> Seq<char> {
    let path = "/priapi/v1/aieco/task/my?page="@ + text::decimal(page) + "&page_size="@
        + text::decimal(limit);
    match status {
        Some(s) => path + "&status="@ + s,
        None => path,
    }
}

/// Whether a list is that of the disputes.
pub open spec fn is_dispute_list(status: Option<Seq<char>>) -> bool {
    status == Some("disputed"@)
}

/// Where the list of tasks with a status comes from.
pub fn list_route(status: Option<&str>, page: u32, limit: u32) -> (r: ListRoute)
    ensures
        match r {
            ListRoute::Arbitration => is_dispute_list(text::opt_str_view(status)),
            ListRoute::Tasks(path) => !is_dispute_list(text::opt_str_view(status)) && path@
                == list_path(page as int, limit as int, text::opt_str_view(status)),
        },
{
    if let Some(s) = status {
        if text_eq(s, "disputed") {
            return ListRoute::Arbitration;
        }
    }
    let page_digits = u64_to_text(page as u64);
    let limit_digits = u64_to_text(limit as u64);
    let path = "/priapi/v1/aieco/task/my?page=".to_string().concat(page_digits.as_str()).concat(
        "&page_size=",
    ).concat(limit_digits.as_str());
    match status {
        Some(s) => ListRoute::Tasks(path.concat("&status=").concat(s)),
        None => ListRoute::Tasks(path),
    }
}

/// The number of tasks that a response states; none where it states none.
pub open spec fn stated_total(response: JsonView) -> u64 {
    match json::member(response, "total"@) {
        Some(JsonView::Number(n)) => match n.unsigned {
            Some(total) => total,
            None => 0,
        },
        _ => 0,
    }
}

/// The tasks of a response.
pub open spec fn listed_tasks(response: JsonView) -> Seq<JsonView> {
    match json::member(response, "list"@) {
        Some(JsonView::Array(items)) => items,
        _ => Seq::empty(),
    }
}

/// The label of the status of a listed task.
pub open spec fn listed_label(task: JsonView) -> Seq<char> {
    match json::member(task, "status"@) {
        Some(value) => match json::int_value(value) {
            Some(code) => query::task_label(code),
            None => "Status unavailable"@,
        },
        None => "Status unavailable"@,
    }
}

/// The line on the status and price of a listed task.
pub open spec fn task_line(task: JsonView) -> Seq<char> {
    "  ["@ + listed_label(task) + "] "@ + status_query::shown_text(task, "jobId"@) + " — "@
        + status_query::shown_text(task, "tokenAmount"@) + " "@ + status_query::shown_text(
        task,
        "tokenSymbol"@,
    )
}

/// The line on the title of a listed task.
pub open spec fn title_line(task: JsonView) -> Seq<char> {
    "       "@ + status_query::shown_text(task, "title"@)
}

/// The lines on listed tasks, two for each.
pub open spec fn task_lines(tasks: Seq<JsonView>) -> Seq<Seq<char>>
    decreases tasks.len(),
{
    if tasks.len() == 0 {
        Seq::empty()
    } else {
        task_lines(tasks.drop_last()).push(task_line(tasks.last())).push(title_line(tasks.last()))
    }
}

/// The line above a list of tasks.
pub open spec fn list_header(response: JsonView, page: int) -> Seq<char> {
    "Task list ("@ + text::decimal(stated_total(response) as int) + " total, page "@
        + text::decimal(page) + "):"@
}

fn task_line_text(task: &Json) -> (r: String)
    ensures
        r@ == task_line(task@),
{
    let label = match task.get("status") {
        Some(value) => match value.as_i64() {
            Some(code) => task_status_label(code),
            None => "Status unavailable",
        },
        None => "Status unavailable",
    };
    "  [".to_string().concat(label).concat("] ").concat(text_or_unknown(task, "jobId")).concat(
        " — ",
    ).concat(text_or_unknown(task, "tokenAmount")).concat(" ").concat(
        text_or_unknown(task, "tokenSymbol"),
    )
}

fn header_text(response: &Json, page: u32) -> (r: String)
    ensures
        r@ == list_header(response@, page as int),
{
    let total = match response.get("total") {
        Some(Json::Number(n)) => match n.unsigned {
            Some(total) => total,
            None => 0,
        },
        _ => 0,
    };
    let total_digits = u64_to_text(total);
    let page_digits = u64_to_text(page as u64);
    "Task list (".to_string().concat(total_digits.as_str()).concat(" total, page ").concat(
        page_digits.as_str(),
    ).concat("):")
}

/// The lines of a list of tasks.
pub fn task_list_lines(response: &Json, page: u32) -> (r: Vec<String>)
    ensures
        events::texts_view(r@) == seq![list_header(response@, page as int)] + task_lines(
            listed_tasks(response@),
        ),
{
    let ghost header = list_header(response@, page as int);
    let mut lines: Vec<String> = Vec::new();
    lines.push(header_text(response, page));
    let list = match response.get("list") {
        Some(list) => match list.as_array() {
            Some(tasks) => tasks,
            None => {
                assert(events::texts_view(lines@) =~= seq![header] + task_lines(Seq::empty()));
                return lines;
            },
        },
        None => {
            assert(events::texts_view(lines@) =~= seq![header] + task_lines(Seq::empty()));
            return lines;
        },
    };
    let ghost all = json::jsons_view(list@);
    assert(events::texts_view(lines@) =~= seq![header] + task_lines(all.take(0)));
    let mut i: usize = 0;
    while i < list.len()
        invariant
            i <= list.len(),
            all == json::jsons_view(list@),
            events::texts_view(lines@) == seq![header] + task_lines(all.take(i as int)),
        decreases list.len() - i,
    {
        let ghost next = all.take(i + 1);
        let ghost before = events::texts_view(lines@);
        assert(next.drop_last() =~= all.take(i as int));
        assert(next.last() == list@[i as int]@);
        lines.push(task_line_text(&list[i]));
        lines.push("       ".to_string().concat(text_or_unknown(&list[i], "title")));
        assert(events::texts_view(lines@) =~= before.push(task_line(next.last())).push(
            title_line(next.last()),
        ));
        assert(events::texts_view(lines@) =~= seq![header] + task_lines(next));
        i = i + 1;
    }
    assert(all.take(all.len() as int) =~= all);
    lines
}

} // verus!
