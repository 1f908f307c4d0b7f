//! What a status query and a list of tasks report, and what each asks for first.

use vstd::prelude::*;

use crate::json;
use crate::json::JsonView;
use crate::query;
use crate::query::CopyView;
use crate::query_laws;
use crate::status_query;
use crate::status_query::{DisputeFacts, DisputeNeed, StatusQueryView, StatusStepView};
use crate::subscription_snapshot;
use crate::task_list;
use crate::text;

verus! {

/// A plain text is shown as it is, and a question mark where there is none.
pub proof fn missing_texts_are_question_marks(task: JsonView, key: Seq<char>)
    ensures
        json::str_at(task, key) is Some ==> status_query::shown_text(task, key) == json::str_at(
            task,
            key,
        )->0,
        json::str_at(task, key) is None ==> status_query::shown_text(task, key) == "?"@,
{
}

/// What a report says, line by line: type, label and sentence, and the task by its
/// own keys.
pub proof fn reports_say_what_they_found(
    job: Seq<char>,
    task: JsonView,
    job_type: Option<i64>,
    copy: CopyView,
)
    ensures
        ({
            let lines = status_query::report_lines(job, task, job_type, copy);
            let asp = json::str_at(task, "providerAgentId"@);
            &&& lines[0] == "Task type: "@ + query::task_type_key(job_type)
            &&& lines[1] == "Task status: "@ + copy.label
            &&& lines[2] == "Status detail: "@ + copy.description
            &&& lines[3] == "  jobId:    "@ + job
            &&& lines[4] == "  title:    "@ + status_query::shown_text(task, "title"@)
            &&& lines[5] == "  description: "@ + status_query::shown_text(task, "description"@)
            &&& lines[6] == "  budget:   "@ + status_query::shown_text(task, "tokenAmount"@) + " "@
                + status_query::shown_text(task, "tokenSymbol"@)
            &&& lines[7] == "  user:    "@ + status_query::shown_text(task, "buyerAgentId"@)
            &&& asp is Some ==> lines.len() == 9 && lines[8] == "  asp: "@ + asp->0
            &&& asp is None ==> lines.len() == 8
        }),
{
}

/// The report on a one-time task names its status by the code in its detail:
/// "Completed" for the code 6 and for no other, and so for each label.
pub proof fn one_time_reports_follow_the_code(
    step: StatusStepView,
    q: StatusQueryView,
    closed: bool,
    code: i64,
)
    requires
        q.task is Some,
        query::integer_at(q.task->0, "jobType"@) == Some(0i64),
        query::integer_at(q.task->0, "status"@) == Some(code),
        status_query::reports(step, q, closed),
    ensures
        step is Report,
        step->Report_0[0] == "Task type: "@ + "one_time"@,
        step->Report_0[1] == "Task status: "@ + query::task_label(code),
        step->Report_0[2] == "Status detail: "@ + query::task_description(code),
        code == 2 ==> step->Report_0[1] == "Task status: "@ + "Awaiting buyer review"@,
        code == 6 ==> step->Report_0[1] == "Task status: "@ + "Completed"@,
        step->Report_0[1] == "Task status: "@ + "Completed"@ ==> code == 6,
        step->Report_0[3] == "  jobId:    "@ + q.job_id,
{
    query_laws::task_labels_belong_to_one_status(code);
    let prefix = "Task status: "@;
    let label = query::task_label(code);
    if prefix + label == prefix + "Completed"@ {
        assert((prefix + label).skip(prefix.len() as int) =~= label);
        assert((prefix + "Completed"@).skip(prefix.len() as int) =~= "Completed"@);
    }
}

/// The type that a query found stands under `jobType`, its code under the key of
/// its type, and the detail it rests on is that of the subscription, if any.
pub proof fn queries_read_their_keys(q: StatusQueryView, task: JsonView)
    requires
        q.task == Some(task),
    ensures
        status_query::found_type(q) == query::integer_at(task, "jobType"@),
        query::integer_at(task, "jobType"@) == Some(0i64) ==> status_query::found_code(q)
            == query::integer_at(task, "status"@),
        query::integer_at(task, "jobType"@) == Some(1i64) && q.subscription is Some
            ==> status_query::found_code(q) == query::subscription_code(q.subscription->0),
        q.subscription is Some ==> status_query::status_detail(q) == q.subscription->0,
        q.subscription is None ==> status_query::status_detail(q) == task,
{
}

/// Without a code the report says that the status is not available.
pub proof fn unknown_codes_are_unavailable(q: StatusQueryView, closed: bool, now: i64)
    ensures
        status_query::found_code(q) is None ==> status_query::found_copy(q, closed, now) == (
        CopyView {
            label: "Status unavailable"@,
            description: "The task status is currently unavailable."@,
        }),
        status_query::found_code(q) matches Some(code) ==> status_query::found_copy(q, closed, now)
            == query::copy_for_type(
            status_query::found_type(q),
            code,
            status_query::status_detail(q),
            closed,
            now,
        ),
{
}

/// A dispute is asked for just where the status is one, or may stem from one.
pub proof fn disputes_belong_to_three_codes(code: Option<i64>)
    ensures
        status_query::dispute_need(code) == DisputeNeed::Required <==> code == Some(4i64),
        status_query::dispute_need(code) == DisputeNeed::Optional <==> code == Some(6i64) || code
            == Some(9i64),
{
}

/// What a status query does with the task detail: without one it asks for the
/// dispute, and a subscription is asked for its own detail.
pub proof fn task_details_lead_to_these_steps(step: StatusStepView, q: StatusQueryView)
    requires
        status_query::follows_task(step, q),
    ensures
        q.task is None ==> step == StatusStepView::FetchDispute(q),
        q.task is Some && query::integer_at(q.task->0, "jobType"@) == Some(1i64) ==> step
            == StatusStepView::FetchSubscription(q),
        q.task is Some && query::integer_at(q.task->0, "jobType"@) != Some(1i64)
            ==> status_query::follows_details(step, q),
{
}

/// The report on a one-time task that no dispute concerns follows at once from its
/// detail.
pub proof fn undisputed_tasks_are_reported(step: StatusStepView, q: StatusQueryView, code: i64)
    requires
        status_query::follows_task(step, q),
        q.task is Some,
        query::integer_at(q.task->0, "jobType"@) == Some(0i64),
        query::integer_at(q.task->0, "status"@) == Some(code),
        code != 4 && code != 6 && code != 9,
    ensures
        step is Report,
        step->Report_0[1] == "Task status: "@ + query::task_label(code),
        code == 2 ==> step->Report_0[1] == "Task status: "@ + "Awaiting buyer review"@,
        step->Report_0[1] != "Task status: "@ + "Completed"@,
{
    one_time_reports_follow_the_code(step, q, false, code);
}

/// What a status query does once the details are there: it fetches a dispute that
/// is needed, checks a subscription for a closure, and reports anything else.
pub proof fn details_lead_to_these_steps(step: StatusStepView, q: StatusQueryView)
    requires
        status_query::follows_details(step, q),
    ensures
        ({
            let code = status_query::found_code(q);
            let disputed = code == Some(4i64) || code == Some(6i64) || code == Some(9i64);
            let subscribed = status_query::found_type(q) == Some(1i64);
            &&& disputed ==> step == StatusStepView::FetchDispute(q)
            &&& !disputed && subscribed ==> step == StatusStepView::CheckReceipt(q)
            &&& !disputed && !subscribed ==> step is Report && status_query::reports(step, q, false)
        }),
{
}

/// What a status query does with a dispute, or without the one it asked for.
pub proof fn disputes_lead_to_these_steps(
    step: StatusStepView,
    q: StatusQueryView,
    dispute: Option<DisputeFacts>,
)
    requires
        status_query::follows_dispute(step, q, dispute),
    ensures
        q.task is None && dispute is None ==> step == StatusStepView::FailTask,
        q.task is None && dispute is Some && dispute->0.job_type == Some(1i64) ==> step
            == StatusStepView::FetchSupplement(q),
        q.task is None && dispute is Some && dispute->0.job_type != Some(1i64) ==> step
            == StatusStepView::ShowDispute(JsonView::Object(Seq::empty())),
        q.task is Some && dispute is Some ==> step == StatusStepView::ShowDispute(
            match q.subscription {
                Some(detail) => detail,
                None => q.task->0,
            },
        ),
        q.task is Some && dispute is None && status_query::found_code(q) == Some(4i64) ==> step
            == StatusStepView::FailDispute,
        q.task is Some && dispute is None && status_query::found_code(q) != Some(4i64)
            ==> status_query::goes_to_report(step, q),
{
}

/// The copy on a subscription that expired or failed says who closed it, or what
/// the settlement facts show.
pub proof fn ambiguous_subscriptions_are_told_apart(detail: JsonView, closed: bool, now: i64)
    ensures
        ({
            let copy = subscription_snapshot::copy_at(detail, closed, now);
            let code = subscription_snapshot::subscription_status_at(detail);
            let trial = json::int_at(detail, "trialType"@);
            let proven = subscription_snapshot::is_refund_proven(detail, code, trial);
            &&& code == Some(8i64) && closed ==> copy == "User closed the task"@
            &&& code == Some(8i64) && !closed ==> copy
                == "ASP acceptance deadline passed; task closed automatically"@
            &&& code == Some(9i64) && proven ==> copy == "Refund completed; task closed"@
            &&& code == Some(9i64) && !proven && trial == Some(1i64) ==> copy
                == "Paid subscription did not start; task closed"@
            &&& code == Some(0i64) && closed ==> copy == "Subscription closure submitted"@
        }),
{
}

/// The path of a page of tasks names the page, its size and the status.
pub proof fn list_paths_name_page_and_status(page: int, limit: int, status: Seq<char>)
    ensures
        task_list::is_dispute_list(Some("disputed"@)),
        status != "disputed"@ ==> !task_list::is_dispute_list(Some(status)),
        !task_list::is_dispute_list(None),
        task_list::list_path(page, limit, None) == "/priapi/v1/aieco/task/my?page="@
            + text::decimal(page) + "&page_size="@ + text::decimal(limit),
        task_list::list_path(page, limit, Some(status)) == task_list::list_path(page, limit, None)
            + "&status="@ + status,
{
}

/// A list of tasks begins with its total and page, and has two lines for each task,
/// in their order.
pub proof fn lists_have_two_lines_per_task(
    response: JsonView,
    page: int,
    earlier: Seq<JsonView>,
    task: JsonView,
    total: u64,
)
    ensures
        json::member(response, "total"@) == Some(json::int_json(total as int))
            ==> task_list::list_header(response, page) == "Task list ("@ + text::decimal(
            total as int,
        ) + " total, page "@ + text::decimal(page) + "):"@,
        json::member(response, "total"@) is None ==> task_list::list_header(response, page)
            == "Task list ("@ + text::decimal(0) + " total, page "@ + text::decimal(page) + "):"@,
        (match json::member(response, "total"@) {
            Some(JsonView::Number(n)) => n.unsigned is None,
            _ => true,
        }) ==> task_list::stated_total(response) == 0,
        task_list::task_lines(Seq::empty()).len() == 0,
        task_list::task_lines(earlier.push(task)) == task_list::task_lines(earlier) + seq![
            task_list::task_line(task),
            task_list::title_line(task),
        ],
{
    assert(earlier.push(task).drop_last() =~= earlier);
    assert(task_list::task_lines(earlier).push(task_list::task_line(task)).push(
        task_list::title_line(task),
    ) =~= task_list::task_lines(earlier) + seq![
        task_list::task_line(task),
        task_list::title_line(task),
    ]);
}

/// What the lines on a listed task say: its label by the code under `status`, its
/// job, its price and its title.
pub proof fn listed_tasks_show_their_keys(task: JsonView, code: i64)
    ensures
        ({
            let label = task_list::listed_label(task);
            &&& json::member(task, "status"@) == Some(json::int_json(code as int)) ==> label
                == query::task_label(code)
            &&& json::member(task, "status"@) is None ==> label == "Status unavailable"@
            &&& task_list::task_line(task) == "  ["@ + label + "] "@ + status_query::shown_text(
                task,
                "jobId"@,
            ) + " — "@ + status_query::shown_text(task, "tokenAmount"@) + " "@
                + status_query::shown_text(task, "tokenSymbol"@)
            &&& task_list::title_line(task) == "       "@ + status_query::shown_text(
                task,
                "title"@,
            )
        }),
{
}

/// The tasks of a list stand under `list`.
pub proof fn listed_tasks_stand_under_list(response: JsonView, items: Seq<JsonView>)
    ensures
        json::member(response, "list"@) == Some(JsonView::Array(items)) ==> task_list::listed_tasks(
            response,
        ) == items,
        !(json::member(response, "list"@) matches Some(list) && list is Array)
            ==> task_list::listed_tasks(response).len() == 0,
{
}

} // verus!
