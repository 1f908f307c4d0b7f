//! Status names, labels and copy, by the type of a task.

use vstd::prelude::*;

use crate::deadline::utc_now_seconds;
use crate::json;
use crate::json::{or_int, Json, JsonView};
use crate::subscription_snapshot;
use crate::subscription_snapshot::subscription_status_copy_at;
use crate::text;
use crate::text::{parse_i64, text_eq, to_ascii_lower, trim};

verus! {

/// Backend key of a one-time task status.
pub open spec fn status_key(code: i64) -> Seq<char> {
    match code {
        0 => "created"@,
        1 => "accepted"@,
        2 => "submitted"@,
        3 => "rejected"@,
        4 => "disputed"@,
        5 => "admin_stopped"@,
        6 => "complete"@,
        7 => "close"@,
        8 => "expired"@,
        9 => "failed"@,
        _ => "unknown"@,
    }
}

/// Backend key of a one-time task status.
pub fn status_name(code: i64) -> (r: &'static str)
    ensures
        r@ == status_key(code),
{
    match code {
        0 => "created",
        1 => "accepted",
        2 => "submitted",
        3 => "rejected",
        4 => "disputed",
        5 => "admin_stopped",
        6 => "complete",
        7 => "close",
        8 => "expired",
        9 => "failed",
        _ => "unknown",
    }
}

/// What a one-time task status means to users. A failed task is one whose refund
/// path succeeded.
pub open spec fn task_label(code: i64) -> Seq<char> {
    match code {
        -1 => "Initializing"@,
        0 => "Awaiting ASP acceptance"@,
        1 => "In progress"@,
        2 => "Awaiting buyer review"@,
        3 => "Awaiting refund decision"@,
        4 => "Evaluation in progress"@,
        5 => "Stopped by platform"@,
        6 => "Completed"@,
        7 => "Closed"@,
        8 => "Expired"@,
        9 => "Refund completed"@,
        _ => "Status unavailable"@,
    }
}

/// What a one-time task status means to users. A failed task is one whose refund
/// path succeeded.
pub fn task_status_label(code: i64) -> (r: &'static str)
    ensures
        r@ == task_label(code),
{
    match code {
        -1 => "Initializing",
        0 => "Awaiting ASP acceptance",
        1 => "In progress",
        2 => "Awaiting buyer review",
        3 => "Awaiting refund decision",
        4 => "Evaluation in progress",
        5 => "Stopped by platform",
        6 => "Completed",
        7 => "Closed",
        8 => "Expired",
        9 => "Refund completed",
        _ => "Status unavailable",
    }
}

/// A sentence on a one-time task status.
pub open spec fn task_description(code: i64) -> Seq<char> {
    match code {
        -1 => "The task is being initialized."@,
        0 => "The task is waiting for an ASP to accept it."@,
        1 => "The ASP accepted the task and is working on it."@,
        2 => "The ASP submitted the deliverable and is waiting for buyer review."@,
        3 => "The buyer rejected the deliverable and the refund request awaits an ASP decision."@,
        4 => "The refund request is in Evaluation."@,
        5 => "The platform stopped the task."@,
        6 => "The task completed and funds were released to the ASP."@,
        7 => "The task is closed."@,
        8 => "The task expired."@,
        9 => "The refund completed and the task is closed."@,
        _ => "The task status is currently unavailable."@,
    }
}

/// A sentence on a one-time task status.
pub fn task_status_description(code: i64) -> (r: &'static str)
    ensures
        r@ == task_description(code),
{
    match code {
        -1 => "The task is being initialized.",
        0 => "The task is waiting for an ASP to accept it.",
        1 => "The ASP accepted the task and is working on it.",
        2 => "The ASP submitted the deliverable and is waiting for buyer review.",
        3 => "The buyer rejected the deliverable and the refund request awaits an ASP decision.",
        4 => "The refund request is in Evaluation.",
        5 => "The platform stopped the task.",
        6 => "The task completed and funds were released to the ASP.",
        7 => "The task is closed.",
        8 => "The task expired.",
        9 => "The refund completed and the task is closed.",
        _ => "The task status is currently unavailable.",
    }
}

/// Backend key of a subscription status.
pub open spec fn subscription_key(code: i64) -> Seq<char> {
    match code {
        -1 => "init"@,
        0 => "created"@,
        1 => "active"@,
        3 => "rejected"@,
        4 => "disputed"@,
        6 => "completed"@,
        7 => "closed"@,
        8 => "expired"@,
        9 => "failed"@,
        _ => "unknown"@,
    }
}

/// Backend key of a subscription status.
pub fn subscription_status_name(code: i64) -> (r: &'static str)
    ensures
        r@ == subscription_key(code),
{
    match code {
        -1 => "init",
        0 => "created",
        1 => "active",
        3 => "rejected",
        4 => "disputed",
        6 => "completed",
        7 => "closed",
        8 => "expired",
        9 => "failed",
        _ => "unknown",
    }
}

/// What a subscription status means to users, by its code alone.
pub open spec fn subscription_label(code: i64) -> Seq<char> {
    match code {
        -1 => "Initializing"@,
        0 => "Awaiting ASP acceptance"@,
        1 => "Active"@,
        3 => "Awaiting ASP decision"@,
        4 => "Evaluation in progress"@,
        6 => "Completed"@,
        7 => "Closed"@,
        8 => "Expired"@,
        9 => "Subscription result needs reconciliation"@,
        _ => "Status unavailable"@,
    }
}

/// What a subscription status means to users, by its code alone.
pub fn subscription_status_label(code: i64) -> (r: &'static str)
    ensures
        r@ == subscription_label(code),
{
    match code {
        -1 => "Initializing",
        0 => "Awaiting ASP acceptance",
        1 => "Active",
        3 => "Awaiting ASP decision",
        4 => "Evaluation in progress",
        6 => "Completed",
        7 => "Closed",
        8 => "Expired",
        9 => "Subscription result needs reconciliation",
        _ => "Status unavailable",
    }
}

/// A sentence on a subscription status, by its code alone.
pub open spec fn subscription_description(code: i64) -> Seq<char> {
    match code {
        -1 => "The subscription is being initialized."@,
        0 => "The subscription is waiting for an ASP to accept it."@,
        1 => "The subscription is active."@,
        3 => "The buyer rejected the current delivery and is waiting for the ASP's decision."@,
        4 => "The subscription refund request is in Evaluation."@,
        6 => "The subscription completed without a refund."@,
        7 => "The subscription is closed."@,
        8 => "The subscription expired."@,
        9 => "The subscription result requires settlement reconciliation."@,
        _ => "The subscription status is currently unavailable."@,
    }
}

/// A sentence on a subscription status, by its code alone.
pub fn subscription_status_description(code: i64) -> (r: &'static str)
    ensures
        r@ == subscription_description(code),
{
    match code {
        -1 => "The subscription is being initialized.",
        0 => "The subscription is waiting for an ASP to accept it.",
        1 => "The subscription is active.",
        3 => "The buyer rejected the current delivery and is waiting for the ASP's decision.",
        4 => "The subscription refund request is in Evaluation.",
        6 => "The subscription completed without a refund.",
        7 => "The subscription is closed.",
        8 => "The subscription expired.",
        9 => "The subscription result requires settlement reconciliation.",
        _ => "The subscription status is currently unavailable.",
    }
}

/// Name of an agent role.
pub open spec fn role_key(code: i64) -> Seq<char> {
    match code {
        1 => "user"@,
        2 => "asp"@,
        3 => "evaluator"@,
        _ => "unknown"@,
    }
}

/// Name of an agent role.
pub fn role_name(code: i64) -> (r: &'static str)
    ensures
        r@ == role_key(code),
{
    match code {
        1 => "user",
        2 => "asp",
        3 => "evaluator",
        _ => "unknown",
    }
}

/// Name of an agent role, as it is listed with an identity.
pub fn role_label(code: i64) -> (r: &'static str)
    ensures
        r@ == role_key(code),
{
    role_name(code)
}

/// Name of the type of a task.
pub open spec fn task_type_key(job_type: Option<i64>) -> Seq<char> {
    match job_type {
        Some(0) => "one_time"@,
        Some(1) => "subscription"@,
        _ => "unknown"@,
    }
}

/// Name of the type of a task.
pub fn task_type_name(job_type: Option<i64>) -> (r: &'static str)
    ensures
        r@ == task_type_key(job_type),
{
    match job_type {
        Some(0) => "one_time",
        Some(1) => "subscription",
        _ => "unknown",
    }
}

/// An integer under a key: a number, or a text that writes one.
pub open spec fn integer_at(value: JsonView, key: Seq<char>) -> Option<i64> {
    match json::member(value, key) {
        Some(JsonView::Number(n)) => n.signed,
        Some(JsonView::Text(t)) => text::written_i64(text::trimmed(t)),
        _ => None,
    }
}

/// An integer under a key: a number, or a text that writes one.
pub fn integer_field(value: &Json, key: &str) -> (r: Option<i64>)
    ensures
        r == integer_at(value@, key@),
{
    match value.get(key) {
        Some(Json::Number(n)) => n.signed,
        Some(Json::Text(t)) => parse_i64(trim(t.as_str())),
        _ => None,
    }
}

/// The status code of a subscription, by its own detail.
pub open spec fn subscription_code(detail: JsonView) -> Option<i64> {
    text::or_else_view(integer_at(detail, "subStatus"@), integer_at(detail, "status"@))
}

/// The status code of a subscription, by its own detail.
pub fn subscription_code_field(detail: &Json) -> (r: Option<i64>)
    ensures
        r == subscription_code(detail@),
{
    or_int(integer_field(detail, "subStatus"), integer_field(detail, "status"))
}

/// The status code of a task. That of a subscription comes from its own detail,
/// never from the task detail.
pub open spec fn code_for_type(
    job_type: Option<i64>,
    task_detail: JsonView,
    subscription_detail: Option<JsonView>,
) -> Option<i64> {
    match job_type {
        Some(0) => integer_at(task_detail, "status"@),
        Some(1) => match subscription_detail {
            Some(detail) => subscription_code(detail),
            None => None,
        },
        _ => None,
    }
}

/// The status code of a task. That of a subscription comes from its own detail,
/// never from the task detail.
pub fn status_code_for_task_type(
    job_type: Option<i64>,
    task_detail: &Json,
    subscription_detail: Option<&Json>,
) -> (r: Option<i64>)
    ensures
        r == code_for_type(job_type, task_detail@, json::opt_json_ref(subscription_detail)),
{
    match job_type {
        Some(0) => integer_field(task_detail, "status"),
        Some(1) => match subscription_detail {
            Some(detail) => subscription_code_field(detail),
            None => None,
        },
        _ => None,
    }
}

/// A label and a sentence on a status.
#[verifier::ext_equal]
pub struct CopyView {
    pub label: Seq<char>,
    pub description: Seq<char>,
}

/// The label and sentence on the status of a task at a time. Where the code of a
/// subscription has more than one meaning, the detail decides.
pub open spec fn copy_for_type(
    job_type: Option<i64>,
    code: i64,
    detail: JsonView,
    user_close_submitted: bool,
    now: i64,
) -> CopyView {
    match job_type {
        Some(0) => CopyView { label: task_label(code), description: task_description(code) },
        Some(1) => if code == 8 || code == 9 {
            let copy = subscription_snapshot::copy_at(detail, user_close_submitted, now);
            CopyView { label: copy, description: copy }
        } else {
            CopyView {
                label: subscription_label(code),
                description: subscription_description(code),
            }
        },
        _ => CopyView {
            label: "Status unavailable"@,
            description: "The task type is unknown, so its status cannot be interpreted safely."@,
        },
    }
}

/// The label and sentence on the status of a task at a time.
pub fn status_copy_for_task_type_at(
    job_type: Option<i64>,
    code: i64,
    detail: &Json,
    user_close_submitted: bool,
    now: i64,
) -> (r: (String, String))
    ensures
        r.0@ == copy_for_type(job_type, code, detail@, user_close_submitted, now).label,
        r.1@ == copy_for_type(job_type, code, detail@, user_close_submitted, now).description,
{
    match job_type {
        Some(0) => (
            task_status_label(code).to_string(),
            task_status_description(code).to_string(),
        ),
        Some(1) => {
            if code == 8 || code == 9 {
                subscription_status_copy_at(detail, user_close_submitted, now)
            } else {
                (
                    subscription_status_label(code).to_string(),
                    subscription_status_description(code).to_string(),
                )
            }
        },
        _ => (
            "Status unavailable".to_string(),
            "The task type is unknown, so its status cannot be interpreted safely.".to_string(),
        ),
    }
}

/// Whether a label and a sentence are those on the status of a task at some time.
pub open spec fn is_copy_for_type(
    copy: CopyView,
    job_type: Option<i64>,
    code: i64,
    detail: JsonView,
    user_close_submitted: bool,
) -> bool {
    exists|now: i64|
        copy == #[trigger] copy_for_type(job_type, code, detail, user_close_submitted, now)
}

/// The label and sentence on the status of a task now.
pub fn status_copy_for_task_type(
    job_type: Option<i64>,
    code: i64,
    detail: &Json,
    user_close_submitted: bool,
) -> (r: (String, String))
    ensures
        is_copy_for_type(
            (CopyView { label: r.0@, description: r.1@ }),
            job_type,
            code,
            detail@,
            user_close_submitted,
        ),
{
    let now: i64 = utc_now_seconds();
    let r = status_copy_for_task_type_at(job_type, code, detail, user_close_submitted, now);
    assert((CopyView { label: r.0@, description: r.1@ }) =~= copy_for_type(
        job_type,
        code,
        detail@,
        user_close_submitted,
        now,
    ));
    r
}

/// The role that an argument names: case and white space around it do not count.
pub open spec fn role_of_name(raw: Seq<char>) -> Option<i64> {
    let name = text::ascii_lower(text::trimmed(raw));
    if name == "user"@ {
        Some(1)
    } else if name == "asp"@ {
        Some(2)
    } else if name == "evaluator"@ {
        Some(3)
    } else {
        None
    }
}

/// The role that an argument names. Only ASCII letters have one of these names as
/// their lower case.
pub fn parse_role_arg(raw: &str) -> (r: Option<i64>)
    ensures
        r == role_of_name(raw@),
{
    let name = to_ascii_lower(trim(raw));
    if text_eq(name.as_str(), "user") {
        Some(1)
    } else if text_eq(name.as_str(), "asp") {
        Some(2)
    } else if text_eq(name.as_str(), "evaluator") {
        Some(3)
    } else {
        None
    }
}

/// Naming a role and reading the name gives the role back; a role without a name
/// cannot be asked for.
pub proof fn role_names_read_back(code: i64)
    ensures
        role_of_name(role_key(code)) == (if 1 <= code <= 3 {
            Some(code)
        } else {
            None
        }),
{
    reveal_strlit("user");
    reveal_strlit("asp");
    reveal_strlit("evaluator");
    reveal_strlit("unknown");
    assert("user"@.len() == 4 && "asp"@.len() == 3 && "evaluator"@.len() == 9
        && "unknown"@.len() == 7);
    assert(!text::is_whitespace("user"@[0]) && !text::is_whitespace("user"@.last()));
    assert(!text::is_whitespace("asp"@[0]) && !text::is_whitespace("asp"@.last()));
    assert(!text::is_whitespace("evaluator"@[0]) && !text::is_whitespace("evaluator"@.last()));
    assert(!text::is_whitespace("unknown"@[0]) && !text::is_whitespace("unknown"@.last()));
    assert(text::ascii_lower("user"@) =~= "user"@);
    assert(text::ascii_lower("asp"@) =~= "asp"@);
    assert(text::ascii_lower("evaluator"@) =~= "evaluator"@);
    assert(text::ascii_lower("unknown"@).len() == 7);
}

/// Without its own detail the status of a subscription is not known, whatever
/// the task detail says.
pub proof fn subscriptions_fail_closed(task_detail: JsonView)
    ensures
        code_for_type(Some(1i64), task_detail, None) is None,
{
}

/// The task detail has no say in the status of a subscription.
pub proof fn task_detail_does_not_decide_subscriptions(
    task_detail: JsonView,
    other: JsonView,
    subscription_detail: Option<JsonView>,
)
    ensures
        code_for_type(Some(1i64), task_detail, subscription_detail) == code_for_type(
            Some(1i64),
            other,
            subscription_detail,
        ),
{
}

/// The copy on an expired or failed subscription is that of its full snapshot.
pub proof fn ambiguous_codes_follow_the_snapshot(
    job: Seq<char>,
    detail: JsonView,
    code: i64,
    user_close_submitted: bool,
    now: i64,
    times: crate::subscription::MomentsView,
    synced_at: Seq<char>,
)
    requires
        code == 8 || code == 9,
    ensures
        ({
            let snapshot = subscription_snapshot::subscription_snapshot_of(
                job,
                detail,
                Seq::empty(),
                true,
                user_close_submitted,
                now,
                times,
                synced_at,
            );
            let copy = copy_for_type(Some(1i64), code, detail, user_close_submitted, now);
            copy.label == snapshot.status_label && copy.description
                == snapshot.display.current_summary
        }),
{
}

} // verus!
