//! What the names, labels and sentences on a status say, and of which status.

use vstd::prelude::*;

use crate::json;
use crate::json::JsonView;
use crate::query;
use crate::query::CopyView;
use crate::status;
use crate::status::StatusView;
use crate::text;

verus! {

/// Each label of a one-time task is that of one status and of no other.
pub proof fn task_labels_belong_to_one_status(code: i64)
    ensures
        query::task_label(code) == "Initializing"@ <==> code == -1,
        query::task_label(code) == "Awaiting ASP acceptance"@ <==> code == 0,
        query::task_label(code) == "In progress"@ <==> code == 1,
        query::task_label(code) == "Awaiting buyer review"@ <==> code == 2,
        query::task_label(code) == "Awaiting refund decision"@ <==> code == 3,
        query::task_label(code) == "Evaluation in progress"@ <==> code == 4,
        query::task_label(code) == "Stopped by platform"@ <==> code == 5,
        query::task_label(code) == "Completed"@ <==> code == 6,
        query::task_label(code) == "Closed"@ <==> code == 7,
        query::task_label(code) == "Expired"@ <==> code == 8,
        query::task_label(code) == "Refund completed"@ <==> code == 9,
        query::task_label(code) == "Status unavailable"@ <==> !(-1 <= code <= 9),
{
    reveal_strlit("Initializing");
    reveal_strlit("Awaiting ASP acceptance");
    reveal_strlit("In progress");
    reveal_strlit("Awaiting buyer review");
    reveal_strlit("Awaiting refund decision");
    reveal_strlit("Evaluation in progress");
    reveal_strlit("Stopped by platform");
    reveal_strlit("Completed");
    reveal_strlit("Closed");
    reveal_strlit("Expired");
    reveal_strlit("Refund completed");
    reveal_strlit("Status unavailable");
    assert("Initializing"@.len() == 12);
    assert("Awaiting ASP acceptance"@.len() == 23);
    assert("In progress"@.len() == 11);
    assert("Awaiting buyer review"@.len() == 21);
    assert("Awaiting refund decision"@.len() == 24);
    assert("Evaluation in progress"@.len() == 22);
    assert("Stopped by platform"@.len() == 19);
    assert("Completed"@.len() == 9);
    assert("Closed"@.len() == 6);
    assert("Expired"@.len() == 7);
    assert("Refund completed"@.len() == 16);
    assert("Status unavailable"@.len() == 18);
}

/// The labels of two known statuses of a one-time task differ.
pub proof fn task_labels_differ(code: i64, other: i64)
    requires
        -1 <= code <= 9,
        code != other,
    ensures
        query::task_label(code) != query::task_label(other),
        query::task_description(code) != query::task_description(other),
{
    task_labels_belong_to_one_status(code);
    task_labels_belong_to_one_status(other);
    task_sentences_belong_to_one_status(code);
    task_sentences_belong_to_one_status(other);
}

/// Each sentence on a one-time task is that of one status and of no other.
pub proof fn task_sentences_belong_to_one_status(code: i64)
    ensures
        query::task_description(code) == "The task is being initialized."@ <==> code == -1,
        query::task_description(code) == "The task is waiting for an ASP to accept it."@
            <==> code == 0,
        query::task_description(code) == "The ASP accepted the task and is working on it."@
            <==> code == 1,
        query::task_description(code)
            == "The ASP submitted the deliverable and is waiting for buyer review."@ <==> code == 2,
        query::task_description(code)
            == "The buyer rejected the deliverable and the refund request awaits an ASP decision."@
            <==> code == 3,
        query::task_description(code) == "The refund request is in Evaluation."@ <==> code == 4,
        query::task_description(code) == "The platform stopped the task."@ <==> code == 5,
        query::task_description(code) == "The task completed and funds were released to the ASP."@
            <==> code == 6,
        query::task_description(code) == "The task is closed."@ <==> code == 7,
        query::task_description(code) == "The task expired."@ <==> code == 8,
        query::task_description(code) == "The refund completed and the task is closed."@
            <==> code == 9,
        query::task_description(code) == "The task status is currently unavailable."@
            <==> !(-1 <= code <= 9),
{
    reveal_strlit("The task is being initialized.");
    reveal_strlit("The task is waiting for an ASP to accept it.");
    reveal_strlit("The ASP accepted the task and is working on it.");
    reveal_strlit("The ASP submitted the deliverable and is waiting for buyer review.");
    reveal_strlit("The buyer rejected the deliverable and the refund request awaits an ASP decision.");
    reveal_strlit("The refund request is in Evaluation.");
    reveal_strlit("The platform stopped the task.");
    reveal_strlit("The task completed and funds were released to the ASP.");
    reveal_strlit("The task is closed.");
    reveal_strlit("The task expired.");
    reveal_strlit("The refund completed and the task is closed.");
    reveal_strlit("The task status is currently unavailable.");
    assert("The task is being initialized."@.len() == 30);
    assert("The task is waiting for an ASP to accept it."@.len() == 44);
    assert("The ASP accepted the task and is working on it."@.len() == 47);
    assert("The ASP submitted the deliverable and is waiting for buyer review."@.len() == 66);
    assert("The buyer rejected the deliverable and the refund request awaits an ASP decision."@.len() == 81);
    assert("The refund request is in Evaluation."@.len() == 36);
    assert("The platform stopped the task."@.len() == 30);
    assert("The task completed and funds were released to the ASP."@.len() == 54);
    assert("The task is closed."@.len() == 19);
    assert("The task expired."@.len() == 17);
    assert("The refund completed and the task is closed."@.len() == 44);
    assert("The task status is currently unavailable."@.len() == 41);
    assert("The task is being initialized."@[4] != "The platform stopped the task."@[4]);
    assert("The task is waiting for an ASP to accept it."@[4] != "The refund completed and the task is closed."@[4]);
}

/// Each backend key of a one-time task is that of one status and of no other.
pub proof fn task_keys_belong_to_one_status(code: i64)
    ensures
        query::status_key(code) == "created"@ <==> code == 0,
        query::status_key(code) == "accepted"@ <==> code == 1,
        query::status_key(code) == "submitted"@ <==> code == 2,
        query::status_key(code) == "rejected"@ <==> code == 3,
        query::status_key(code) == "disputed"@ <==> code == 4,
        query::status_key(code) == "admin_stopped"@ <==> code == 5,
        query::status_key(code) == "complete"@ <==> code == 6,
        query::status_key(code) == "close"@ <==> code == 7,
        query::status_key(code) == "expired"@ <==> code == 8,
        query::status_key(code) == "failed"@ <==> code == 9,
        query::status_key(code) == "unknown"@ <==> !(0 <= code <= 9),
{
    reveal_strlit("created");
    reveal_strlit("accepted");
    reveal_strlit("submitted");
    reveal_strlit("rejected");
    reveal_strlit("disputed");
    reveal_strlit("admin_stopped");
    reveal_strlit("complete");
    reveal_strlit("close");
    reveal_strlit("expired");
    reveal_strlit("failed");
    reveal_strlit("unknown");
    assert("created"@.len() == 7);
    assert("accepted"@.len() == 8);
    assert("submitted"@.len() == 9);
    assert("rejected"@.len() == 8);
    assert("disputed"@.len() == 8);
    assert("admin_stopped"@.len() == 13);
    assert("complete"@.len() == 8);
    assert("close"@.len() == 5);
    assert("expired"@.len() == 7);
    assert("failed"@.len() == 6);
    assert("unknown"@.len() == 7);
    assert("created"@[0] != "expired"@[0]);
    assert("created"@[0] != "unknown"@[0]);
    assert("accepted"@[0] != "rejected"@[0]);
    assert("accepted"@[0] != "disputed"@[0]);
    assert("accepted"@[0] != "complete"@[0]);
    assert("rejected"@[0] != "disputed"@[0]);
    assert("rejected"@[0] != "complete"@[0]);
    assert("disputed"@[0] != "complete"@[0]);
    assert("expired"@[0] != "unknown"@[0]);
}

/// Each backend key of a subscription is that of one status and of no other.
pub proof fn subscription_keys_belong_to_one_status(code: i64)
    ensures
        query::subscription_key(code) == "init"@ <==> code == -1,
        query::subscription_key(code) == "created"@ <==> code == 0,
        query::subscription_key(code) == "active"@ <==> code == 1,
        query::subscription_key(code) == "rejected"@ <==> code == 3,
        query::subscription_key(code) == "disputed"@ <==> code == 4,
        query::subscription_key(code) == "completed"@ <==> code == 6,
        query::subscription_key(code) == "closed"@ <==> code == 7,
        query::subscription_key(code) == "expired"@ <==> code == 8,
        query::subscription_key(code) == "failed"@ <==> code == 9,
        query::subscription_key(code) == "unknown"@ <==> !(-1 <= code <= 9) || code == 2
            || code == 5,
{
    reveal_strlit("init");
    reveal_strlit("created");
    reveal_strlit("active");
    reveal_strlit("rejected");
    reveal_strlit("disputed");
    reveal_strlit("completed");
    reveal_strlit("closed");
    reveal_strlit("expired");
    reveal_strlit("failed");
    reveal_strlit("unknown");
    assert("init"@.len() == 4);
    assert("created"@.len() == 7);
    assert("active"@.len() == 6);
    assert("rejected"@.len() == 8);
    assert("disputed"@.len() == 8);
    assert("completed"@.len() == 9);
    assert("closed"@.len() == 6);
    assert("expired"@.len() == 7);
    assert("failed"@.len() == 6);
    assert("unknown"@.len() == 7);
    assert("created"@[0] != "expired"@[0]);
    assert("created"@[0] != "unknown"@[0]);
    assert("active"@[0] != "closed"@[0]);
    assert("active"@[0] != "failed"@[0]);
    assert("rejected"@[0] != "disputed"@[0]);
    assert("closed"@[0] != "failed"@[0]);
    assert("expired"@[0] != "unknown"@[0]);
}

/// Each short label of a subscription is that of one status and of no other.
pub proof fn subscription_labels_belong_to_one_status(code: i64)
    ensures
        query::subscription_label(code) == "Initializing"@ <==> code == -1,
        query::subscription_label(code) == "Awaiting ASP acceptance"@ <==> code == 0,
        query::subscription_label(code) == "Active"@ <==> code == 1,
        query::subscription_label(code) == "Awaiting ASP decision"@ <==> code == 3,
        query::subscription_label(code) == "Evaluation in progress"@ <==> code == 4,
        query::subscription_label(code) == "Completed"@ <==> code == 6,
        query::subscription_label(code) == "Closed"@ <==> code == 7,
        query::subscription_label(code) == "Expired"@ <==> code == 8,
        query::subscription_label(code) == "Subscription result needs reconciliation"@
            <==> code == 9,
        query::subscription_label(code) == "Status unavailable"@ <==> !(-1 <= code <= 9)
            || code == 2 || code == 5,
{
    reveal_strlit("Initializing");
    reveal_strlit("Awaiting ASP acceptance");
    reveal_strlit("Active");
    reveal_strlit("Awaiting ASP decision");
    reveal_strlit("Evaluation in progress");
    reveal_strlit("Completed");
    reveal_strlit("Closed");
    reveal_strlit("Expired");
    reveal_strlit("Subscription result needs reconciliation");
    reveal_strlit("Status unavailable");
    assert("Initializing"@.len() == 12);
    assert("Awaiting ASP acceptance"@.len() == 23);
    assert("Active"@.len() == 6);
    assert("Awaiting ASP decision"@.len() == 21);
    assert("Evaluation in progress"@.len() == 22);
    assert("Completed"@.len() == 9);
    assert("Closed"@.len() == 6);
    assert("Expired"@.len() == 7);
    assert("Subscription result needs reconciliation"@.len() == 40);
    assert("Status unavailable"@.len() == 18);
    assert("Active"@[0] != "Closed"@[0]);
}

/// Each sentence on a subscription is that of one status and of no other.
pub proof fn subscription_sentences_belong_to_one_status(code: i64)
    ensures
        query::subscription_description(code) == "The subscription is being initialized."@
            <==> code == -1,
        query::subscription_description(code)
            == "The subscription is waiting for an ASP to accept it."@ <==> code == 0,
        query::subscription_description(code) == "The subscription is active."@ <==> code == 1,
        query::subscription_description(code)
            == "The buyer rejected the current delivery and is waiting for the ASP's decision."@
            <==> code == 3,
        query::subscription_description(code)
            == "The subscription refund request is in Evaluation."@ <==> code == 4,
        query::subscription_description(code) == "The subscription completed without a refund."@
            <==> code == 6,
        query::subscription_description(code) == "The subscription is closed."@ <==> code == 7,
        query::subscription_description(code) == "The subscription expired."@ <==> code == 8,
        query::subscription_description(code)
            == "The subscription result requires settlement reconciliation."@ <==> code == 9,
        query::subscription_description(code)
            == "The subscription status is currently unavailable."@ <==> !(-1 <= code <= 9)
            || code == 2 || code == 5,
{
    reveal_strlit("The subscription is being initialized.");
    reveal_strlit("The subscription is waiting for an ASP to accept it.");
    reveal_strlit("The subscription is active.");
    reveal_strlit("The buyer rejected the current delivery and is waiting for the ASP's decision.");
    reveal_strlit("The subscription refund request is in Evaluation.");
    reveal_strlit("The subscription completed without a refund.");
    reveal_strlit("The subscription is closed.");
    reveal_strlit("The subscription expired.");
    reveal_strlit("The subscription result requires settlement reconciliation.");
    reveal_strlit("The subscription status is currently unavailable.");
    assert("The subscription is being initialized."@.len() == 38);
    assert("The subscription is waiting for an ASP to accept it."@.len() == 52);
    assert("The subscription is active."@.len() == 27);
    assert("The buyer rejected the current delivery and is waiting for the ASP's decision."@.len()
        == 78);
    assert("The subscription refund request is in Evaluation."@.len() == 49);
    assert("The subscription completed without a refund."@.len() == 44);
    assert("The subscription is closed."@.len() == 27);
    assert("The subscription expired."@.len() == 25);
    assert("The subscription result requires settlement reconciliation."@.len() == 59);
    assert("The subscription status is currently unavailable."@.len() == 49);
    assert("The subscription is active."@[20] != "The subscription is closed."@[20]);
    assert("The subscription refund request is in Evaluation."@[17] != "The subscription status is currently unavailable."@[17]);
}

/// Each name of a role is that of one role and of no other.
pub proof fn role_names_belong_to_one_role(code: i64)
    ensures
        query::role_key(code) == "user"@ <==> code == 1,
        query::role_key(code) == "asp"@ <==> code == 2,
        query::role_key(code) == "evaluator"@ <==> code == 3,
        query::role_key(code) == "unknown"@ <==> !(1 <= code <= 3),
{
    reveal_strlit("user");
    reveal_strlit("asp");
    reveal_strlit("evaluator");
    reveal_strlit("unknown");
    assert("user"@.len() == 4);
    assert("asp"@.len() == 3);
    assert("evaluator"@.len() == 9);
    assert("unknown"@.len() == 7);
}

/// Each name of a type of task is that of one type and of no other.
pub proof fn type_names_belong_to_one_type(job_type: Option<i64>)
    ensures
        query::task_type_key(job_type) == "one_time"@ <==> job_type == Some(0i64),
        query::task_type_key(job_type) == "subscription"@ <==> job_type == Some(1i64),
        query::task_type_key(job_type) == "unknown"@ <==> job_type != Some(0i64) && job_type
            != Some(1i64),
{
    reveal_strlit("one_time");
    reveal_strlit("subscription");
    reveal_strlit("unknown");
    assert("one_time"@.len() == 8);
    assert("subscription"@.len() == 12);
    assert("unknown"@.len() == 7);
}

/// The backend key of a one-time task reads as the status with its code.
pub proof fn task_keys_read_as_their_codes(code: i64)
    ensures
        0 <= code <= 9 ==> status::status_of_text(query::status_key(code))
            == status::status_of_code(code as i32),
        0 <= code <= 9 ==> status::status_text(status::status_of_code(code as i32))
            == query::status_key(code),
        !(0 <= code <= 9) ==> status::status_of_text(query::status_key(code)) is Other,
{
    reveal_strlit("init");
    reveal_strlit("created");
    reveal_strlit("accepted");
    reveal_strlit("submitted");
    reveal_strlit("rejected");
    reveal_strlit("disputed");
    reveal_strlit("admin_stopped");
    reveal_strlit("complete");
    reveal_strlit("close");
    reveal_strlit("expired");
    reveal_strlit("failed");
    reveal_strlit("unknown");
    assert("init"@.len() == 4);
    assert("created"@.len() == 7);
    assert("accepted"@.len() == 8);
    assert("submitted"@.len() == 9);
    assert("rejected"@.len() == 8);
    assert("disputed"@.len() == 8);
    assert("admin_stopped"@.len() == 13);
    assert("complete"@.len() == 8);
    assert("close"@.len() == 5);
    assert("expired"@.len() == 7);
    assert("failed"@.len() == 6);
    assert("unknown"@.len() == 7);
    assert("created"@[0] != "expired"@[0]);
    assert("created"@[0] != "unknown"@[0]);
    assert("accepted"@[0] != "rejected"@[0]);
    assert("accepted"@[0] != "disputed"@[0]);
    assert("accepted"@[0] != "complete"@[0]);
    assert("rejected"@[0] != "disputed"@[0]);
    assert("rejected"@[0] != "complete"@[0]);
    assert("disputed"@[0] != "complete"@[0]);
    assert("expired"@[0] != "unknown"@[0]);
}

/// The copy on a one-time task comes from its code alone, and so does that on a
/// subscription whose code has one meaning; a task of another type gets none.
pub proof fn copies_rest_on_type_and_code(
    job_type: Option<i64>,
    code: i64,
    detail: JsonView,
    other: JsonView,
    closed: bool,
    other_closed: bool,
    now: i64,
    later: i64,
)
    ensures
        job_type == Some(0i64) ==> query::copy_for_type(job_type, code, detail, closed, now) == (
        CopyView { label: query::task_label(code), description: query::task_description(code) }),
        job_type == Some(1i64) && code != 8 && code != 9 ==> query::copy_for_type(
            job_type,
            code,
            detail,
            closed,
            now,
        ) == (CopyView {
            label: query::subscription_label(code),
            description: query::subscription_description(code),
        }),
        !(job_type == Some(1i64) && (code == 8 || code == 9)) ==> query::copy_for_type(
            job_type,
            code,
            detail,
            closed,
            now,
        ) == query::copy_for_type(job_type, code, other, other_closed, later),
        job_type != Some(0i64) && job_type != Some(1i64) ==> query::copy_for_type(
            job_type,
            code,
            detail,
            closed,
            now,
        ) == (CopyView {
            label: "Status unavailable"@,
            description: "The task type is unknown, so its status cannot be interpreted safely."@,
        }),
{
}

/// An integer is read from a number, or from a text that writes it with white
/// space around it or without; nothing else is one.
pub proof fn integers_are_numbers_or_their_texts(value: JsonView, key: Seq<char>, n: i64)
    ensures
        json::member(value, key) == Some(json::int_json(n as int)) ==> query::integer_at(value, key)
            == Some(n),
        (match json::member(value, key) {
            Some(JsonView::Text(t)) => text::trimmed(t) == text::decimal(n as int),
            _ => false,
        }) ==> query::integer_at(value, key) == Some(n),
        (match json::member(value, key) {
            None => true,
            Some(found) => !(found is Number) && !(found is Text),
        }) ==> query::integer_at(value, key) is None,
{
    text::decimal_reads_back(n as int);
}

/// The code of a subscription is that under `subStatus`, else that under `status`;
/// that of a one-time task stands under `status` of its own detail.
pub proof fn codes_stand_under_their_keys(
    task: JsonView,
    detail: JsonView,
    subscription: Option<JsonView>,
)
    ensures
        query::integer_at(detail, "subStatus"@) is Some ==> query::subscription_code(detail)
            == query::integer_at(detail, "subStatus"@),
        query::integer_at(detail, "subStatus"@) is None ==> query::subscription_code(detail)
            == query::integer_at(detail, "status"@),
        query::code_for_type(Some(0i64), task, subscription) == query::integer_at(
            task,
            "status"@,
        ),
        query::code_for_type(Some(1i64), task, Some(detail)) == query::subscription_code(detail),
        forall|job_type: Option<i64>|
            job_type != Some(0i64) && job_type != Some(1i64) ==> #[trigger] query::code_for_type(
                job_type,
                task,
                subscription,
            ) is None,
{
}

/// A role is named by its word, in any case and with white space around it.
pub proof fn roles_are_named_by_their_words(raw: Seq<char>)
    ensures
        query::role_of_name(raw) == Some(1i64) <==> text::ascii_lower(text::trimmed(raw))
            == "user"@,
        query::role_of_name(raw) == Some(2i64) <==> text::ascii_lower(text::trimmed(raw))
            == "asp"@,
        query::role_of_name(raw) == Some(3i64) <==> text::ascii_lower(text::trimmed(raw))
            == "evaluator"@,
        query::role_of_name(raw) matches Some(code) ==> 1 <= code <= 3,
{
    reveal_strlit("user");
    reveal_strlit("asp");
    reveal_strlit("evaluator");
    assert("user"@.len() == 4);
    assert("asp"@.len() == 3);
    assert("evaluator"@.len() == 9);
}

/// A code stands for one status and for no other, and an unknown one keeps its
/// number.
pub proof fn codes_belong_to_one_status(code: i32)
    ensures
        status::status_of_code(code) == StatusView::Init <==> code == -1,
        status::status_of_code(code) == StatusView::Created <==> code == 0,
        status::status_of_code(code) == StatusView::Accepted <==> code == 1,
        status::status_of_code(code) == StatusView::Submitted <==> code == 2,
        status::status_of_code(code) == StatusView::Rejected <==> code == 3,
        status::status_of_code(code) == StatusView::Disputed <==> code == 4,
        status::status_of_code(code) == StatusView::AdminStopped <==> code == 5,
        status::status_of_code(code) == StatusView::Completed <==> code == 6,
        status::status_of_code(code) == StatusView::Close <==> code == 7,
        status::status_of_code(code) == StatusView::Expired <==> code == 8,
        status::status_of_code(code) == StatusView::Failed <==> code == 9,
        !(-1 <= code <= 9) ==> status::status_of_code(code) == StatusView::Other(
            "unknown_"@ + text::decimal(code as int),
        ),
        status::status_is_terminal(status::status_of_code(code)) <==> 5 <= code <= 9,
{
}

/// A key stands for one status and for no other.
pub proof fn keys_belong_to_one_status(name: Seq<char>)
    ensures
        status::status_of_text(name) == StatusView::Init <==> name == "init"@,
        status::status_of_text(name) == StatusView::Created <==> name == "created"@,
        status::status_of_text(name) == StatusView::Accepted <==> name == "accepted"@,
        status::status_of_text(name) == StatusView::Submitted <==> name == "submitted"@,
        status::status_of_text(name) == StatusView::Rejected <==> name == "rejected"@,
        status::status_of_text(name) == StatusView::Disputed <==> name == "disputed"@,
        status::status_of_text(name) == StatusView::AdminStopped <==> name == "admin_stopped"@,
        status::status_of_text(name) == StatusView::Completed <==> name == "complete"@,
        status::status_of_text(name) == StatusView::Close <==> name == "close"@,
        status::status_of_text(name) == StatusView::Expired <==> name == "expired"@,
        status::status_of_text(name) == StatusView::Failed <==> name == "failed"@,
        status::status_of_text(name) is Other ==> status::status_of_text(name)
            == StatusView::Other(name),
{
    reveal_strlit("init");
    reveal_strlit("created");
    reveal_strlit("accepted");
    reveal_strlit("submitted");
    reveal_strlit("rejected");
    reveal_strlit("disputed");
    reveal_strlit("admin_stopped");
    reveal_strlit("complete");
    reveal_strlit("close");
    reveal_strlit("expired");
    reveal_strlit("failed");
    assert("init"@.len() == 4);
    assert("created"@.len() == 7);
    assert("accepted"@.len() == 8);
    assert("submitted"@.len() == 9);
    assert("rejected"@.len() == 8);
    assert("disputed"@.len() == 8);
    assert("admin_stopped"@.len() == 13);
    assert("complete"@.len() == 8);
    assert("close"@.len() == 5);
    assert("expired"@.len() == 7);
    assert("failed"@.len() == 6);
    assert("created"@[0] != "expired"@[0]);
    assert("accepted"@[0] != "rejected"@[0]);
    assert("accepted"@[0] != "disputed"@[0]);
    assert("accepted"@[0] != "complete"@[0]);
    assert("rejected"@[0] != "disputed"@[0]);
    assert("rejected"@[0] != "complete"@[0]);
    assert("disputed"@[0] != "complete"@[0]);
}

} // verus!
