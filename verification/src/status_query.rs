//! The status query of a task: what it needs next, and what it reports. Each
//! step takes what the last request brought.

use vstd::prelude::*;
use vstd::string::StringExecFns;

use crate::deadline::utc_now_seconds;
use crate::events;
use crate::json;
use crate::json::{Json, JsonView};
use crate::query;
use crate::query::{
    integer_field, status_code_for_task_type, status_copy_for_task_type_at, task_type_name,
};

verus! {

/// What a status query has gathered.
#[derive(Debug, PartialEq, Eq)]
pub struct StatusQuery {
    pub job_id: String,
    pub agent_id: String,
    /// The task detail, if it could be fetched.
    pub task: Option<Json>,
    /// The subscription detail, if it was needed and could be fetched.
    pub subscription: Option<Json>,
}

/// The model of what a status query has gathered.
#[verifier::ext_equal]
pub struct StatusQueryView {
    pub job_id: Seq<char>,
    pub agent_id: Seq<char>,
    pub task: Option<JsonView>,
    pub subscription: Option<JsonView>,
}

impl View for StatusQuery {
    type V = StatusQueryView;

    open spec fn view(&self) -> StatusQueryView {
        StatusQueryView {
            job_id: self.job_id@,
            agent_id: self.agent_id@,
            task: json::opt_json(self.task),
            subscription: json::opt_json(self.subscription),
        }
    }
}

/// What a status query does next.
#[derive(Debug, PartialEq, Eq)]
pub enum StatusStep {
    /// Fetch the task detail.
    FetchTask(StatusQuery),
    /// Fetch the subscription detail, on which the status rests.
    FetchSubscription(StatusQuery),
    /// Fetch the dispute of the job.
    FetchDispute(StatusQuery),
    /// Fetch the subscription detail that supplements a dispute.
    FetchSupplement(StatusQuery),
    /// Check whether a closure of the subscription is on record.
    CheckReceipt(StatusQuery),
    /// Show the dispute, supplemented by a detail.
    ShowDispute(Json),
    /// Report the status, line by line.
    Report(Vec<String>),
    /// Fail with the error of the task detail.
    FailTask,
    /// Fail with the error of the dispute.
    FailDispute,
}

/// The model of what a status query does next.
#[verifier::ext_equal]
pub enum StatusStepView {
    FetchTask(StatusQueryView),
    FetchSubscription(StatusQueryView),
    FetchDispute(StatusQueryView),
    FetchSupplement(StatusQueryView),
    CheckReceipt(StatusQueryView),
    ShowDispute(JsonView),
    Report(Seq<Seq<char>>),
    FailTask,
    FailDispute,
}

impl View for StatusStep {
    type V = StatusStepView;

    open spec fn view(&self) -> StatusStepView {
        match self {
            StatusStep::FetchTask(q) => StatusStepView::FetchTask(q@),
            StatusStep::FetchSubscription(q) => StatusStepView::FetchSubscription(q@),
            StatusStep::FetchDispute(q) => StatusStepView::FetchDispute(q@),
            StatusStep::FetchSupplement(q) => StatusStepView::FetchSupplement(q@),
            StatusStep::CheckReceipt(q) => StatusStepView::CheckReceipt(q@),
            StatusStep::ShowDispute(detail) => StatusStepView::ShowDispute(detail@),
            StatusStep::Report(lines) => StatusStepView::Report(events::texts_view(lines@)),
            StatusStep::FailTask => StatusStepView::FailTask,
            StatusStep::FailDispute => StatusStepView::FailDispute,
        }
    }
}

/// The type of the task that a query found.
pub open spec fn found_type(q: StatusQueryView) -> Option<i64> {
    match q.task {
        Some(task) => query::integer_at(task, "jobType"@),
        None => None,
    }
}

/// The status code that a query found.
pub open spec fn found_code(q: StatusQueryView) -> Option<i64> {
    match q.task {
        Some(task) => query::code_for_type(found_type(q), task, q.subscription),
        None => None,
    }
}

/// The detail that the status rests on: that of the subscription, if there is
/// one, else that of the task.
pub open spec fn status_detail(q: StatusQueryView) -> JsonView {
    match q.subscription {
        Some(detail) => detail,
        None => q.task->0,
    }
}

/// The plain text under a key of the task, or a question mark.
pub open spec fn shown_text(task: JsonView, key: Seq<char>) -> Seq<char> {
    match json::str_at(task, key) {
        Some(t) => t,
        None => "?"@,
    }
}

/// The plain text under a key, or a question mark.
pub fn text_or_unknown<'a>(task: &'a Json, key: &str) -> (r: &'a str)
    ensures
        r@ == shown_text(task@, key@),
{
    match task.str_at(key) {
        Some(t) => t,
        None => "?",
    }
}

/// The copy on the status that a query found, at a time.
pub open spec fn found_copy(
    q: StatusQueryView,
    user_close_submitted: bool,
    now: i64,
) -> query::CopyView {
    match found_code(q) {
        Some(code) => query::copy_for_type(
            found_type(q),
            code,
            status_detail(q),
            user_close_submitted,
            now,
        ),
        None => query::CopyView {
            label: "Status unavailable"@,
            description: "The task status is currently unavailable."@,
        },
    }
}

/// The lines of a report on a task with a detail.
pub open spec fn report_lines(
    job: Seq<char>,
    task: JsonView,
    job_type: Option<i64>,
    copy: query::CopyView,
) -> Seq<Seq<char>> {
    let lines = seq![
        "Task type: "@ + query::task_type_key(job_type),
        "Task status: "@ + copy.label,
        "Status detail: "@ + copy.description,
        "  jobId:    "@ + job,
        "  title:    "@ + shown_text(task, "title"@),
        "  description: "@ + shown_text(task, "description"@),
        "  budget:   "@ + shown_text(task, "tokenAmount"@) + " "@ + shown_text(
            task,
            "tokenSymbol"@,
        ),
        "  user:    "@ + shown_text(task, "buyerAgentId"@),
    ];
    match json::str_at(task, "providerAgentId"@) {
        Some(asp) => lines.push("  asp: "@ + asp),
        None => lines,
    }
}

fn line(head: &str, rest: &str) -> (r: String)
    ensures
        r@ == head@ + rest@,
{
    head.to_string().concat(rest)
}

fn report(job_id: &str, task: &Json, job_type: Option<i64>, label: &str, description: &str) -> (r:
    Vec<String>)
    ensures
        events::texts_view(r@) == report_lines(
            job_id@,
            task@,
            job_type,
            query::CopyView { label: label@, description: description@ },
        ),
{
    let budget = line("  budget:   ", text_or_unknown(task, "tokenAmount")).concat(" ").concat(
        text_or_unknown(task, "tokenSymbol"),
    );
    let mut lines: Vec<String> = vec![
        line("Task type: ", task_type_name(job_type)),
        line("Task status: ", label),
        line("Status detail: ", description),
        line("  jobId:    ", job_id),
        line("  title:    ", text_or_unknown(task, "title")),
        line("  description: ", text_or_unknown(task, "description")),
        budget,
        line("  user:    ", text_or_unknown(task, "buyerAgentId")),
    ];
    let ghost copy = query::CopyView { label: label@, description: description@ };
    if let Some(asp) = task.str_at("providerAgentId") {
        lines.push(line("  asp: ", asp));
    }
    assert(events::texts_view(lines@) =~= report_lines(job_id@, task@, job_type, copy));
    lines
}

/// Whether a step reports the status that a query found, at some time.
pub open spec fn reports(
    step: StatusStepView,
    q: StatusQueryView,
    user_close_submitted: bool,
) -> bool {
    exists|now: i64|
        step == StatusStepView::Report(
            report_lines(
                q.job_id,
                q.task->0,
                found_type(q),
                #[trigger] found_copy(q, user_close_submitted, now),
            ),
        )
}

/// Reports the status that a query found, at a time.
pub fn report_at(status_query: &StatusQuery, user_close_submitted: bool, now: i64) -> (r: Vec<
    String,
>)
    requires
        status_query.task is Some,
    ensures
        events::texts_view(r@) == report_lines(
            status_query@.job_id,
            status_query@.task->0,
            found_type(status_query@),
            found_copy(status_query@, user_close_submitted, now),
        ),
{
    match &status_query.task {
        Some(task) => {
            let job_type = integer_field(task, "jobType");
            let code = status_code_for_task_type(
                job_type,
                task,
                status_query.subscription.as_ref(),
            );
            let detail = match &status_query.subscription {
                Some(detail) => detail,
                None => task,
            };
            let (label, description) = match code {
                Some(code) => status_copy_for_task_type_at(
                    job_type,
                    code,
                    detail,
                    user_close_submitted,
                    now,
                ),
                None => (
                    "Status unavailable".to_string(),
                    "The task status is currently unavailable.".to_string(),
                ),
            };
            let ghost copy = found_copy(status_query@, user_close_submitted, now);
            assert((query::CopyView { label: label@, description: description@ }) =~= copy);
            report(
                status_query.job_id.as_str(),
                task,
                job_type,
                label.as_str(),
                description.as_str(),
            )
        },
        None => Vec::new(),
    }
}

/// Begins a status query for an agent.
pub fn begin_status(job_id: &str, agent_id: &str) -> (r: StatusStep)
    ensures
        r@ == StatusStepView::FetchTask(
            StatusQueryView {
                job_id: job_id@,
                agent_id: agent_id@,
                task: None,
                subscription: None,
            },
        ),
{
    StatusStep::FetchTask(
        StatusQuery {
            job_id: job_id.to_string(),
            agent_id: agent_id.to_string(),
            task: None,
            subscription: None,
        },
    )
}

/// What a dispute is to a status.
#[derive(Debug, Clone, Copy, PartialEq, Eq, Structural)]
pub enum DisputeNeed {
    /// The status is a dispute: without it there is nothing to report.
    Required,
    /// The status may stem from a dispute.
    Optional,
    /// The status has nothing to do with one.
    Absent,
}

/// What a dispute is to a status code.
pub open spec fn dispute_need(code: Option<i64>) -> DisputeNeed {
    match code {
        Some(4) => DisputeNeed::Required,
        Some(6) => DisputeNeed::Optional,
        Some(9) => DisputeNeed::Optional,
        _ => DisputeNeed::Absent,
    }
}

fn need_of_code(code: Option<i64>) -> (r: DisputeNeed)
    ensures
        r == dispute_need(code),
{
    match code {
        Some(4) => DisputeNeed::Required,
        Some(6) => DisputeNeed::Optional,
        Some(9) => DisputeNeed::Optional,
        _ => DisputeNeed::Absent,
    }
}

/// Whether a step is the one that reports without a dispute: a subscription is
/// first asked for a closure on record.
pub open spec fn goes_to_report(step: StatusStepView, q: StatusQueryView) -> bool {
    if found_type(q) == Some(1i64) {
        step == StatusStepView::CheckReceipt(q)
    } else {
        reports(step, q, false)
    }
}

/// Whether a step is the one after the details of a task are there.
pub open spec fn follows_details(step: StatusStepView, q: StatusQueryView) -> bool {
    if dispute_need(found_code(q)) == DisputeNeed::Absent {
        goes_to_report(step, q)
    } else {
        step == StatusStepView::FetchDispute(q)
    }
}

fn go_to_report(status_query: StatusQuery) -> (r: StatusStep)
    requires
        status_query.task is Some,
    ensures
        goes_to_report(r@, status_query@),
{
    let is_subscription = match &status_query.task {
        Some(task) => match integer_field(task, "jobType") {
            Some(n) => n == 1,
            None => false,
        },
        None => false,
    };
    if is_subscription {
        StatusStep::CheckReceipt(status_query)
    } else {
        let now: i64 = utc_now_seconds();
        let lines = report_at(&status_query, false, now);
        StatusStep::Report(lines)
    }
}

fn after_details(status_query: StatusQuery) -> (r: StatusStep)
    requires
        status_query.task is Some,
    ensures
        follows_details(r@, status_query@),
{
    let code = match &status_query.task {
        Some(task) => status_code_for_task_type(
            integer_field(task, "jobType"),
            task,
            status_query.subscription.as_ref(),
        ),
        None => None,
    };
    match need_of_code(code) {
        DisputeNeed::Absent => go_to_report(status_query),
        _ => StatusStep::FetchDispute(status_query),
    }
}

/// Whether a step is the one after the task detail was asked for.
pub open spec fn follows_task(step: StatusStepView, q: StatusQueryView) -> bool {
    match q.task {
        None => step == StatusStepView::FetchDispute(q),
        Some(_) => if found_type(q) == Some(1i64) {
            step == StatusStepView::FetchSubscription(q)
        } else {
            follows_details(step, q)
        },
    }
}

/// Takes the task detail, if it could be fetched. The dispute of the job stands
/// in for a detail that is missing; a subscription is asked for its own.
pub fn status_with_task(status_query: StatusQuery, fetched: Option<Json>) -> (r: StatusStep)
    ensures
        follows_task(
            r@,
            (StatusQueryView {
                task: json::opt_json(fetched),
                subscription: None,
                ..status_query@
            }),
        ),
{
    let is_subscription = match &fetched {
        Some(task) => match integer_field(task, "jobType") {
            Some(n) => n == 1,
            None => false,
        },
        None => false,
    };
    let next = StatusQuery {
        job_id: status_query.job_id,
        agent_id: status_query.agent_id,
        task: fetched,
        subscription: None,
    };
    if next.task.is_none() {
        StatusStep::FetchDispute(next)
    } else if is_subscription {
        StatusStep::FetchSubscription(next)
    } else {
        after_details(next)
    }
}

/// Takes the subscription detail of a task with a detail, if it could be fetched.
/// The status of a subscription rests on nothing else.
pub fn status_with_subscription(status_query: StatusQuery, fetched: Option<Json>) -> (r: StatusStep)
    requires
        status_query.task is Some,
    ensures
        follows_details(
            r@,
            (StatusQueryView { subscription: json::opt_json(fetched), ..status_query@ }),
        ),
{
    after_details(
        StatusQuery {
            job_id: status_query.job_id,
            agent_id: status_query.agent_id,
            task: status_query.task,
            subscription: fetched,
        },
    )
}

/// What a dispute says of itself.
#[derive(Debug, Clone, Copy, PartialEq, Eq, Structural)]
pub struct DisputeFacts {
    pub job_type: Option<i64>,
}

/// An object without members.
pub open spec fn no_detail() -> JsonView {
    JsonView::Object(Seq::empty())
}

fn empty_detail() -> (r: Json)
    ensures
        r@ == no_detail(),
{
    let members: Vec<(String, Json)> = Vec::new();
    let r = Json::object(members);
    assert(json::members_view(members@) =~= Seq::empty());
    r
}

/// Whether a step is the one after the dispute of a job was asked for.
pub open spec fn follows_dispute(
    step: StatusStepView,
    q: StatusQueryView,
    dispute: Option<DisputeFacts>,
) -> bool {
    match q.task {
        None => match dispute {
            None => step == StatusStepView::FailTask,
            Some(facts) => if facts.job_type == Some(1i64) {
                step == StatusStepView::FetchSupplement(q)
            } else {
                step == StatusStepView::ShowDispute(no_detail())
            },
        },
        Some(_) => match dispute {
            Some(_) => step == StatusStepView::ShowDispute(status_detail(q)),
            None => if dispute_need(found_code(q)) == DisputeNeed::Required {
                step == StatusStepView::FailDispute
            } else {
                goes_to_report(step, q)
            },
        },
    }
}

/// Takes the dispute of the job, if it could be fetched.
pub fn status_with_dispute(status_query: StatusQuery, dispute: Option<DisputeFacts>) -> (r:
    StatusStep)
    ensures
        follows_dispute(r@, status_query@, dispute),
{
    let task = match &status_query.task {
        Some(task) => task,
        None => {
            return match dispute {
                None => StatusStep::FailTask,
                Some(facts) => match facts.job_type {
                    Some(1) => StatusStep::FetchSupplement(status_query),
                    _ => StatusStep::ShowDispute(empty_detail()),
                },
            };
        },
    };
    if dispute.is_some() {
        return match &status_query.subscription {
            Some(detail) => StatusStep::ShowDispute(detail.clone()),
            None => StatusStep::ShowDispute(task.clone()),
        };
    }
    let code = status_code_for_task_type(
        integer_field(task, "jobType"),
        task,
        status_query.subscription.as_ref(),
    );
    match need_of_code(code) {
        DisputeNeed::Required => StatusStep::FailDispute,
        _ => go_to_report(status_query),
    }
}

/// Takes the subscription detail that supplements a dispute, if it could be
/// fetched.
pub fn status_with_supplement(fetched: Option<Json>) -> (r: StatusStep)
    ensures
        r@ == StatusStepView::ShowDispute(
            match fetched {
                Some(detail) => detail@,
                None => no_detail(),
            },
        ),
{
    match fetched {
        Some(detail) => StatusStep::ShowDispute(detail),
        None => StatusStep::ShowDispute(empty_detail()),
    }
}

/// Takes whether a closure of the subscription is on record, and reports.
pub fn status_with_receipt(status_query: &StatusQuery, user_close_submitted: bool) -> (r:
    StatusStep)
    requires
        status_query.task is Some,
    ensures
        reports(r@, status_query@, user_close_submitted),
{
    let now: i64 = utc_now_seconds();
    let lines = report_at(status_query, user_close_submitted, now);
    StatusStep::Report(lines)
}

/// A subscription whose own detail is missing is reported as unavailable, not by
/// the status that the task detail holds.
pub proof fn missing_subscription_is_unavailable(
    q: StatusQueryView,
    user_close_submitted: bool,
    now: i64,
)
    requires
        found_type(q) == Some(1i64),
        q.subscription is None,
    ensures
        found_code(q) is None,
        found_copy(q, user_close_submitted, now).label == "Status unavailable"@,
{
}

/// A disputed task is never reported without its dispute.
pub proof fn disputes_are_not_passed_over(
    step: StatusStepView,
    q: StatusQueryView,
    dispute: Option<DisputeFacts>,
)
    requires
        q.task is Some,
        found_code(q) == Some(4i64),
    ensures
        follows_details(step, q) ==> step == StatusStepView::FetchDispute(q),
        follows_dispute(step, q, dispute) ==> step is ShowDispute || step is FailDispute,
{
}

} // verus!
