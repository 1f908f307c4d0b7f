//! Official lifecycle events read from a message history.

use vstd::prelude::*;
use vstd::string::StringExecFns;

use crate::deadline;
use crate::deadline::parse_optional_timestamp;
use crate::json;
use crate::json::{detail_string, or_text, scalar_i32, Json, JsonView};
use crate::text;
use crate::text::{
    as_deref, eq_ignore_ascii_case, starts_with, text_before, text_eq, to_ascii_lower, trim,
};

verus! {

/// A message of a task history.
#[derive(Debug, PartialEq, Eq)]
pub struct HistoryMessage {
    pub id: String,
    pub sender_inbox_id: Option<String>,
    pub content: Json,
    pub sent_at: Option<String>,
    pub delivery_status: Option<String>,
}

/// The model of a history message.
#[verifier::ext_equal]
pub struct MessageView {
    pub id: Seq<char>,
    pub sender_inbox_id: Option<Seq<char>>,
    pub content: JsonView,
    pub sent_at: Option<Seq<char>>,
    pub delivery_status: Option<Seq<char>>,
}

impl View for HistoryMessage {
    type V = MessageView;

    open spec fn view(&self) -> MessageView {
        MessageView {
            id: self.id@,
            sender_inbox_id: text::opt_view(self.sender_inbox_id),
            content: self.content@,
            sent_at: text::opt_view(self.sent_at),
            delivery_status: text::opt_view(self.delivery_status),
        }
    }
}

/// The models of a list of messages.
pub open spec fn messages_view(messages: Seq<HistoryMessage>) -> Seq<MessageView> {
    Seq::new(messages.len(), |i: int| messages[i]@)
}

/// The kinds of official events.
#[derive(Debug, Clone, Copy, PartialEq, Eq, Structural)]
pub enum LifecycleEventKind {
    AspSelected,
    Created,
    Accepted,
    Submitted,
    Completed,
    Rejected,
    DisputeRequested,
    Disputed,
    DisputeResolved,
    ReviewExpired,
    RejectExpired,
    ProviderRejected,
    Closed,
    Expired,
    Refunded,
    Failed,
    SubscriptionOpened,
    SubscriptionCreated,
    SubscriptionAspSelected,
    SubscriptionCancelled,
    SubscriptionDeliveryRejected,
    SubscriptionRefundApproved,
    SubscriptionDisputed,
    SubscriptionTrialConverted,
    SubscriptionRenewed,
    SubscriptionExpiryWarning,
    SubscriptionCompleted,
    SubscriptionClosed,
    SubscriptionFailed,
    SubscriptionAutoRefunded,
    SubscriptionIncomeClaimed,
}

/// An official event of a task.
#[derive(Debug, PartialEq, Eq)]
pub struct LifecycleEvent {
    pub message_id: String,
    pub event_id: Option<String>,
    pub name: String,
    pub kind: LifecycleEventKind,
    pub occurred_at: Option<String>,
    pub deadline_at: Option<String>,
    pub authoritative_status: Option<String>,
    pub job_type: Option<i32>,
    pub outcome: Option<String>,
    pub reason: Option<String>,
    pub sender_inbox_id: Option<String>,
}

/// The model of an official event.
#[verifier::ext_equal]
pub struct EventView {
    pub message_id: Seq<char>,
    pub event_id: Option<Seq<char>>,
    pub name: Seq<char>,
    pub kind: LifecycleEventKind,
    pub occurred_at: Option<Seq<char>>,
    pub deadline_at: Option<Seq<char>>,
    pub authoritative_status: Option<Seq<char>>,
    pub job_type: Option<i32>,
    pub outcome: Option<Seq<char>>,
    pub reason: Option<Seq<char>>,
    pub sender_inbox_id: Option<Seq<char>>,
}

impl View for LifecycleEvent {
    type V = EventView;

    open spec fn view(&self) -> EventView {
        EventView {
            message_id: self.message_id@,
            event_id: text::opt_view(self.event_id),
            name: self.name@,
            kind: self.kind,
            occurred_at: text::opt_view(self.occurred_at),
            deadline_at: text::opt_view(self.deadline_at),
            authoritative_status: text::opt_view(self.authoritative_status),
            job_type: self.job_type,
            outcome: text::opt_view(self.outcome),
            reason: text::opt_view(self.reason),
            sender_inbox_id: text::opt_view(self.sender_inbox_id),
        }
    }
}

/// The models of a list of events.
pub open spec fn events_view(events: Seq<LifecycleEvent>) -> Seq<EventView> {
    Seq::new(events.len(), |i: int| events[i]@)
}

/// The kind of the event with a name; case and white space around it do not count.
pub open spec fn event_kind_of(name: Seq<char>) -> Option<LifecycleEventKind> {
    let key = text::ascii_lower(text::trimmed(name));
    if key == "job_asp_selected"@ {
        Some(LifecycleEventKind::AspSelected)
    } else if key == "job_created"@ {
        Some(LifecycleEventKind::Created)
    } else if key == "job_accepted"@ {
        Some(LifecycleEventKind::Accepted)
    } else if key == "job_submitted"@ {
        Some(LifecycleEventKind::Submitted)
    } else if key == "job_completed"@ || key == "job_auto_completed"@ {
        Some(LifecycleEventKind::Completed)
    } else if key == "job_rejected"@ {
        Some(LifecycleEventKind::Rejected)
    } else if key == "dispute_approved"@ {
        Some(LifecycleEventKind::DisputeRequested)
    } else if key == "job_disputed"@ {
        Some(LifecycleEventKind::Disputed)
    } else if key == "dispute_resolved"@ {
        Some(LifecycleEventKind::DisputeResolved)
    } else if key == "review_expired"@ {
        Some(LifecycleEventKind::ReviewExpired)
    } else if key == "reject_expired"@ {
        Some(LifecycleEventKind::RejectExpired)
    } else if key == "job_provider_reject"@ {
        Some(LifecycleEventKind::ProviderRejected)
    } else if key == "job_closed"@ || key == "job_asp_reject_closed"@ {
        Some(LifecycleEventKind::Closed)
    } else if key == "job_expired"@ || key == "job_asp_accept_expire"@ || key == "submit_expired"@ {
        Some(LifecycleEventKind::Expired)
    } else if key == "job_refunded"@ || key == "job_auto_refunded"@
        || key == "job_asp_reject_expire"@ {
        Some(LifecycleEventKind::Refunded)
    } else if key == "job_failed"@ {
        Some(LifecycleEventKind::Failed)
    } else if key == "sub_open"@ {
        Some(LifecycleEventKind::SubscriptionOpened)
    } else if key == "sub_created"@ {
        Some(LifecycleEventKind::SubscriptionCreated)
    } else if key == "sub_asp_selected"@ {
        Some(LifecycleEventKind::SubscriptionAspSelected)
    } else if key == "sub_cancel"@ {
        Some(LifecycleEventKind::SubscriptionCancelled)
    } else if key == "sub_user_reject"@ {
        Some(LifecycleEventKind::SubscriptionDeliveryRejected)
    } else if key == "sub_asp_agree"@ {
        Some(LifecycleEventKind::SubscriptionRefundApproved)
    } else if key == "sub_asp_dispute"@ {
        Some(LifecycleEventKind::SubscriptionDisputed)
    } else if key == "sub_trial_into_active"@ {
        Some(LifecycleEventKind::SubscriptionTrialConverted)
    } else if key == "sub_renew"@ {
        Some(LifecycleEventKind::SubscriptionRenewed)
    } else if key == "sub_expire_warn"@ {
        Some(LifecycleEventKind::SubscriptionExpiryWarning)
    } else if key == "sub_complete_notify"@ {
        Some(LifecycleEventKind::SubscriptionCompleted)
    } else if key == "sub_close_notify"@ {
        Some(LifecycleEventKind::SubscriptionClosed)
    } else if key == "sub_failed_notify"@ {
        Some(LifecycleEventKind::SubscriptionFailed)
    } else if key == "sub_reject_refund_notify"@ {
        Some(LifecycleEventKind::SubscriptionAutoRefunded)
    } else if key == "sub_asp_claim_notify"@ {
        Some(LifecycleEventKind::SubscriptionIncomeClaimed)
    } else {
        None
    }
}

/// The kind of the event with a name; case and white space around it do not count.
pub fn event_kind(name: &str) -> (r: Option<LifecycleEventKind>)
    ensures
        r == event_kind_of(name@),
{
    let key = to_ascii_lower(trim(name));
    let k = key.as_str();
    if text_eq(k, "job_asp_selected") {
        Some(LifecycleEventKind::AspSelected)
    } else if text_eq(k, "job_created") {
        Some(LifecycleEventKind::Created)
    } else if text_eq(k, "job_accepted") {
        Some(LifecycleEventKind::Accepted)
    } else if text_eq(k, "job_submitted") {
        Some(LifecycleEventKind::Submitted)
    } else if text_eq(k, "job_completed") || text_eq(k, "job_auto_completed") {
        Some(LifecycleEventKind::Completed)
    } else if text_eq(k, "job_rejected") {
        Some(LifecycleEventKind::Rejected)
    } else if text_eq(k, "dispute_approved") {
        Some(LifecycleEventKind::DisputeRequested)
    } else if text_eq(k, "job_disputed") {
        Some(LifecycleEventKind::Disputed)
    } else if text_eq(k, "dispute_resolved") {
        Some(LifecycleEventKind::DisputeResolved)
    } else if text_eq(k, "review_expired") {
        Some(LifecycleEventKind::ReviewExpired)
    } else if text_eq(k, "reject_expired") {
        Some(LifecycleEventKind::RejectExpired)
    } else if text_eq(k, "job_provider_reject") {
        Some(LifecycleEventKind::ProviderRejected)
    } else if text_eq(k, "job_closed") || text_eq(k, "job_asp_reject_closed") {
        Some(LifecycleEventKind::Closed)
    } else if text_eq(k, "job_expired") || text_eq(k, "job_asp_accept_expire")
        || text_eq(k, "submit_expired") {
        Some(LifecycleEventKind::Expired)
    } else if text_eq(k, "job_refunded") || text_eq(k, "job_auto_refunded")
        || text_eq(k, "job_asp_reject_expire") {
        Some(LifecycleEventKind::Refunded)
    } else if text_eq(k, "job_failed") {
        Some(LifecycleEventKind::Failed)
    } else if text_eq(k, "sub_open") {
        Some(LifecycleEventKind::SubscriptionOpened)
    } else if text_eq(k, "sub_created") {
        Some(LifecycleEventKind::SubscriptionCreated)
    } else if text_eq(k, "sub_asp_selected") {
        Some(LifecycleEventKind::SubscriptionAspSelected)
    } else if text_eq(k, "sub_cancel") {
        Some(LifecycleEventKind::SubscriptionCancelled)
    } else if text_eq(k, "sub_user_reject") {
        Some(LifecycleEventKind::SubscriptionDeliveryRejected)
    } else if text_eq(k, "sub_asp_agree") {
        Some(LifecycleEventKind::SubscriptionRefundApproved)
    } else if text_eq(k, "sub_asp_dispute") {
        Some(LifecycleEventKind::SubscriptionDisputed)
    } else if text_eq(k, "sub_trial_into_active") {
        Some(LifecycleEventKind::SubscriptionTrialConverted)
    } else if text_eq(k, "sub_renew") {
        Some(LifecycleEventKind::SubscriptionRenewed)
    } else if text_eq(k, "sub_expire_warn") {
        Some(LifecycleEventKind::SubscriptionExpiryWarning)
    } else if text_eq(k, "sub_complete_notify") {
        Some(LifecycleEventKind::SubscriptionCompleted)
    } else if text_eq(k, "sub_close_notify") {
        Some(LifecycleEventKind::SubscriptionClosed)
    } else if text_eq(k, "sub_failed_notify") {
        Some(LifecycleEventKind::SubscriptionFailed)
    } else if text_eq(k, "sub_reject_refund_notify") {
        Some(LifecycleEventKind::SubscriptionAutoRefunded)
    } else if text_eq(k, "sub_asp_claim_notify") {
        Some(LifecycleEventKind::SubscriptionIncomeClaimed)
    } else {
        None
    }
}

/// Whether two texts differ at most in the case of ASCII letters.
pub open spec fn same_ignoring_case(a: Seq<char>, b: Seq<char>) -> bool {
    text::ascii_lower(a) == text::ascii_lower(b)
}

/// The type of a job: named, or by its number.
pub open spec fn job_type_of(value: JsonView) -> Option<i32> {
    match value {
        JsonView::Text(t) => if same_ignoring_case(t, "one_time"@) {
            Some(0)
        } else if same_ignoring_case(t, "subscription"@) {
            Some(1)
        } else {
            json::scalar_small_int(value)
        },
        _ => json::scalar_small_int(value),
    }
}

/// The type of the job under the key `jobType`.
pub open spec fn job_type_at(detail: JsonView) -> Option<i32> {
    match json::member(detail, "jobType"@) {
        Some(value) => job_type_of(value),
        None => None,
    }
}

/// Reads the type of a job: named, or by its number.
pub fn parse_job_type(value: &Json) -> (r: Option<i32>)
    ensures
        r == job_type_of(value@),
{
    match value {
        Json::Text(t) => if eq_ignore_ascii_case(t.as_str(), "one_time") {
            Some(0)
        } else if eq_ignore_ascii_case(t.as_str(), "subscription") {
            Some(1)
        } else {
            scalar_i32(value)
        },
        _ => scalar_i32(value),
    }
}

/// Reads the type of the job under the key `jobType`.
pub fn job_type_field(detail: &Json) -> (r: Option<i32>)
    ensures
        r == job_type_at(detail@),
{
    match detail.get("jobType") {
        Some(value) => parse_job_type(value),
        None => None,
    }
}

/// The object that a value is, or that its text writes.
pub open spec fn decoded_object(content: JsonView) -> Option<JsonView> {
    match content {
        JsonView::Object(_) => Some(content),
        JsonView::Text(t) => match json::parsed_json(t) {
            Some(value) => if value is Object {
                Some(value)
            } else {
                None
            },
            None => None,
        },
        _ => None,
    }
}

/// The object that holds an event: the `message` of the decoded object where
/// that is an object itself, else the decoded object.
pub open spec fn message_of(decoded: JsonView) -> JsonView {
    match json::member(decoded, "message"@) {
        Some(inner) => if inner is Object {
            inner
        } else {
            decoded
        },
        None => decoded,
    }
}

/// Whether an object says that the system is its source.
pub open spec fn is_official(envelope: JsonView) -> bool {
    json::str_at(envelope, "source"@) matches Some(source) && same_ignoring_case(
        source,
        "system"@,
    )
}

/// The official event object that a message content holds, if any.
pub open spec fn official_envelope(content: JsonView) -> Option<JsonView> {
    match decoded_object(content) {
        Some(decoded) => if is_official(message_of(decoded)) {
            Some(message_of(decoded))
        } else {
            None
        },
        None => None,
    }
}

/// The object that a value is, or that its text writes.
pub fn decode_object(value: &Json) -> (r: Option<Json>)
    ensures
        json::opt_json(r) == decoded_object(value@),
{
    match value {
        Json::Object(_) => Some(value.clone()),
        Json::Text(t) => match Json::parse(t.as_str()) {
            Ok(parsed) => if parsed.is_object() {
                Some(parsed)
            } else {
                None
            },
            Err(_) => None,
        },
        _ => None,
    }
}

/// The official event object that a message content holds, if any.
pub fn system_event_envelope(content: &Json) -> (r: Option<Json>)
    ensures
        json::opt_json(r) == official_envelope(content@),
{
    match decode_object(content) {
        None => None,
        Some(decoded) => {
            let envelope = match decoded.get("message") {
                Some(inner) => if inner.is_object() {
                    inner.clone()
                } else {
                    decoded.clone()
                },
                None => decoded.clone(),
            };
            let official = match envelope.str_at("source") {
                Some(source) => eq_ignore_ascii_case(source, "system"),
                None => false,
            };
            if official {
                Some(envelope)
            } else {
                None
            }
        },
    }
}

/// The event that an official object states, with what its message adds.
pub open spec fn stated_event(
    envelope: JsonView,
    name: Seq<char>,
    kind: LifecycleEventKind,
    message: MessageView,
) -> EventView {
    let sent_at = message.sent_at;
    EventView {
        message_id: message.id,
        event_id: json::text_at(envelope, "eventId"@),
        name: text::ascii_lower(text::trimmed(name)),
        kind,
        occurred_at: text::or_else_view(
            json::first_text(
                envelope,
                seq!["occurredAt"@, "eventTime"@, "timestamp"@, "createdAt"@],
            ),
            sent_at,
        ),
        deadline_at: json::first_text(
            envelope,
            seq![
                "reviewDeadlineAt"@,
                "reviewWindowEndsAt"@,
                "rejectWindowEndsAt"@,
                "acceptDeadline"@,
                "trialEndTime"@,
                "trailEndTime"@,
                "subBufferEndTime"@,
                "expireTime"@,
            ],
        ),
        authoritative_status: json::first_text(
            envelope,
            seq!["subStatus"@, "jobStatus"@, "taskStatus"@, "status"@],
        ),
        job_type: text::or_else_view(
            job_type_at(envelope),
            if text::has_prefix(text::ascii_lower(text::trimmed(name)), "sub_"@) {
                Some(1i32)
            } else {
                None
            },
        ),
        outcome: json::first_text(
            envelope,
            seq![
                "renewResult"@,
                "cancelResult"@,
                "disputeResult"@,
                "evaluationResult"@,
                "winner"@,
                "verdict"@,
                "result"@,
            ],
        ),
        reason: json::first_text(
            envelope,
            seq![
                "failReason"@,
                "failReasopn"@,
                "aspRejectReason"@,
                "refundReason"@,
                "rejectReason"@,
                "reason"@,
            ],
        ),
        sender_inbox_id: message.sender_inbox_id,
    }
}

/// The official event of a job that a message states: the object is official,
/// names the job exactly, and its event has a known name.
#[verifier::opaque]
pub open spec fn recognized_event(job: Seq<char>, message: MessageView) -> Option<EventView> {
    match official_envelope(message.content) {
        Some(envelope) => if json::text_at(envelope, "jobId"@) == Some(job) {
            match json::str_at(envelope, "event"@) {
                Some(name) => match event_kind_of(name) {
                    Some(kind) => Some(stated_event(envelope, name, kind, message)),
                    None => None,
                },
                None => None,
            }
        } else {
            None
        },
        None => None,
    }
}

/// Whether an optional text is there and equals the expected one.
pub fn is_text(value: &Option<String>, expected: &str) -> (r: bool)
    ensures
        r == (text::opt_view(*value) == Some(expected@)),
{
    match value {
        Some(t) => text_eq(t.as_str(), expected),
        None => false,
    }
}

/// The official event of a job that a message states, if any.
pub fn event_from_message(job_id: &str, message: &HistoryMessage) -> (r: Option<LifecycleEvent>)
    ensures
        match r {
            Some(event) => recognized_event(job_id@, message@) == Some(event@),
            None => recognized_event(job_id@, message@) is None,
        },
{
    reveal(recognized_event);
    let envelope = match system_event_envelope(&message.content) {
        Some(envelope) => envelope,
        None => {
            return None;
        },
    };
    let job = envelope.text_at("jobId");
    if !is_text(&job, job_id) {
        return None;
    }
    let raw_name = match envelope.str_at("event") {
        Some(name) => name,
        None => {
            return None;
        },
    };
    let kind = match event_kind(raw_name) {
        Some(kind) => kind,
        None => {
            return None;
        },
    };
    let name = to_ascii_lower(trim(raw_name));
    let sent_at = message.sent_at.clone();
    let job_type = match job_type_field(&envelope) {
        Some(stated) => Some(stated),
        None => if starts_with(name.as_str(), "sub_") {
            Some(1i32)
        } else {
            None
        },
    };
    Some(
        LifecycleEvent {
            message_id: message.id.clone(),
            event_id: envelope.text_at("eventId"),
            name,
            kind,
            occurred_at: or_text(
                detail_string(&envelope, &["occurredAt", "eventTime", "timestamp", "createdAt"]),
                sent_at,
            ),
            deadline_at: detail_string(
                &envelope,
                &[
                    "reviewDeadlineAt",
                    "reviewWindowEndsAt",
                    "rejectWindowEndsAt",
                    "acceptDeadline",
                    "trialEndTime",
                    "trailEndTime",
                    "subBufferEndTime",
                    "expireTime",
                ],
            ),
            authoritative_status: detail_string(
                &envelope,
                &["subStatus", "jobStatus", "taskStatus", "status"],
            ),
            job_type,
            outcome: detail_string(
                &envelope,
                &[
                    "renewResult",
                    "cancelResult",
                    "disputeResult",
                    "evaluationResult",
                    "winner",
                    "verdict",
                    "result",
                ],
            ),
            reason: detail_string(
                &envelope,
                &[
                    "failReason",
                    "failReasopn",
                    "aspRejectReason",
                    "refundReason",
                    "rejectReason",
                    "reason",
                ],
            ),
            sender_inbox_id: message.sender_inbox_id.clone(),
        },
    )
}

/// What tells two statements of one event apart from two events: the event's
/// own id, or else its job, name and time.
pub open spec fn logical_key(job: Seq<char>, event: EventView) -> Seq<char> {
    match event.event_id {
        Some(id) => id,
        None => job + ":"@ + event.name + ":"@ + (match event.occurred_at {
            Some(time) => time,
            None => Seq::empty(),
        }),
    }
}

fn event_key(job_id: &str, event: &LifecycleEvent) -> (r: String)
    ensures
        r@ == logical_key(job_id@, event@),
{
    match &event.event_id {
        Some(id) => id.clone(),
        None => {
            let head = job_id.to_string().concat(":").concat(event.name.as_str()).concat(":");
            match &event.occurred_at {
                Some(time) => head.concat(time.as_str()),
                None => {
                    assert(head@ + Seq::<char>::empty() =~= head@);
                    head
                },
            }
        },
    }
}

/// Whether no earlier message has the id of message `i`.
pub open spec fn is_first_of_id(messages: Seq<MessageView>, i: int) -> bool {
    forall|j: int| 0 <= j < i ==> (#[trigger] messages[j]).id != messages[i].id
}

/// Whether message `i` is the first of its id and states an event of the job.
pub open spec fn is_candidate(job: Seq<char>, messages: Seq<MessageView>, i: int) -> bool {
    is_first_of_id(messages, i) && recognized_event(job, messages[i]) is Some
}

/// The logical key of the event that message `i` states.
pub open spec fn key_at(job: Seq<char>, messages: Seq<MessageView>, i: int) -> Seq<char> {
    logical_key(job, recognized_event(job, messages[i])->0)
}

/// Whether the event of message `i` is kept: it is a candidate, and no earlier
/// candidate states the same event.
pub open spec fn is_kept(job: Seq<char>, messages: Seq<MessageView>, i: int) -> bool {
    &&& is_candidate(job, messages, i)
    &&& forall|j: int|
        0 <= j < i && #[trigger] is_candidate(job, messages, j) ==> key_at(job, messages, j)
            != key_at(job, messages, i)
}

/// The kept events of the first `n` messages, in message order.
pub open spec fn kept_events(job: Seq<char>, messages: Seq<MessageView>, n: int) -> Seq<EventView>
    decreases n,
{
    if n <= 0 {
        Seq::empty()
    } else if is_kept(job, messages, n - 1) {
        kept_events(job, messages, n - 1).push(recognized_event(job, messages[n - 1])->0)
    } else {
        kept_events(job, messages, n - 1)
    }
}

/// The rank of a time: dated times first, by their seconds; others after, by
/// their text.
pub open spec fn time_rank(time: Option<Seq<char>>) -> (bool, i64, Seq<char>) {
    match deadline::opt_timestamp(time) {
        Some(seconds) => (false, seconds, Seq::empty()),
        None => (
            true,
            i64::MAX,
            match time {
                Some(t) => t,
                None => Seq::empty(),
            },
        ),
    }
}

/// The order of time ranks.
pub open spec fn rank_before(a: (bool, i64, Seq<char>), b: (bool, i64, Seq<char>)) -> bool {
    if a.0 != b.0 {
        !a.0
    } else if a.1 != b.1 {
        a.1 < b.1
    } else {
        text::text_less(a.2, b.2)
    }
}

/// The order of events: by time, then by message id.
pub open spec fn event_before(a: EventView, b: EventView) -> bool {
    let ra = time_rank(a.occurred_at);
    let rb = time_rank(b.occurred_at);
    if ra != rb {
        rank_before(ra, rb)
    } else {
        text::text_less(a.message_id, b.message_id)
    }
}

/// The rank of a time.
pub fn timestamp_sort_key<'a>(value: Option<&'a str>) -> (r: (bool, i64, &'a str))
    ensures
        (r.0, r.1, r.2@) == time_rank(text::opt_str_view(value)),
{
    match parse_optional_timestamp(value) {
        Some(seconds) => {
            proof {
                reveal_strlit("");
                assert(""@ =~= Seq::<char>::empty());
            }
            (false, seconds, "")
        },
        None => match value {
            Some(t) => (true, i64::MAX, t),
            None => {
                proof {
                    reveal_strlit("");
                    assert(""@ =~= Seq::<char>::empty());
                }
                (true, i64::MAX, "")
            },
        },
    }
}

fn event_precedes(a: &LifecycleEvent, b: &LifecycleEvent) -> (r: bool)
    ensures
        r == event_before(a@, b@),
{
    let ka = timestamp_sort_key(as_deref(&a.occurred_at));
    let kb = timestamp_sort_key(as_deref(&b.occurred_at));
    if ka.0 != kb.0 {
        !ka.0
    } else if ka.1 != kb.1 {
        ka.1 < kb.1
    } else if !text_eq(ka.2, kb.2) {
        text_before(ka.2, kb.2)
    } else {
        text_before(a.message_id.as_str(), b.message_id.as_str())
    }
}

/// Puts an event into a list, behind all that do not come after it.
pub open spec fn insert_event(events: Seq<EventView>, event: EventView) -> Seq<EventView>
    decreases events.len(),
{
    if events.len() > 0 && event_before(event, events.last()) {
        insert_event(events.drop_last(), event).push(events.last())
    } else {
        events.push(event)
    }
}

/// A list of events in their order; those of equal rank keep theirs.
pub open spec fn sorted_events(events: Seq<EventView>) -> Seq<EventView>
    decreases events.len(),
{
    if events.len() == 0 {
        events
    } else {
        insert_event(sorted_events(events.drop_last()), events.last())
    }
}

fn place_event(events: &mut Vec<LifecycleEvent>, event: LifecycleEvent)
    ensures
        events_view(final(events)@) == insert_event(events_view(old(events)@), event@),
{
    let ghost before = events_view(events@);
    let mut at: usize = events.len();
    assert(before.take(at as int) =~= before);
    assert(insert_event(before, event@) =~= insert_event(before.take(at as int), event@)
        + before.skip(at as int));
    while at > 0 && event_precedes(&event, &events[at - 1])
        invariant
            at <= events.len(),
            events@ == old(events)@,
            before == events_view(events@),
            insert_event(before, event@) == insert_event(before.take(at as int), event@)
                + before.skip(at as int),
        decreases at,
    {
        let ghost head = before.take(at as int);
        proof {
            assert(head.last() == events@[at - 1]@);
            assert(head.drop_last() =~= before.take(at - 1));
            assert(insert_event(head, event@) == insert_event(head.drop_last(), event@).push(
                head.last(),
            ));
            assert(insert_event(before.take(at - 1), event@).push(head.last()) + before.skip(
                at as int,
            ) =~= insert_event(before.take(at - 1), event@) + before.skip(at - 1));
        }
        at = at - 1;
    }
    proof {
        let head = before.take(at as int);
        assert(insert_event(head, event@) == head.push(event@)) by {
            if at > 0 {
                assert(head.last() == events@[at - 1]@);
            }
        }
    }
    events.insert(at, event);
    assert(events_view(events@) =~= insert_event(before, event@));
}

/// The events of a job in a message history.
pub open spec fn history_events(job: Seq<char>, messages: Seq<MessageView>) -> Seq<EventView> {
    sorted_events(kept_events(job, messages, messages.len() as int))
}

fn repeats_id(messages: &[HistoryMessage], i: usize) -> (r: bool)
    requires
        i < messages@.len(),
    ensures
        r == !is_first_of_id(messages_view(messages@), i as int),
{
    let ghost all = messages_view(messages@);
    let mut j: usize = 0;
    while j < i
        invariant
            j <= i < messages@.len(),
            all == messages_view(messages@),
            forall|k: int| 0 <= k < j ==> (#[trigger] all[k]).id != all[i as int].id,
        decreases i - j,
    {
        if text_eq(messages[j].id.as_str(), messages[i].id.as_str()) {
            assert(all[j as int].id == all[i as int].id);
            return true;
        }
        j = j + 1;
    }
    false
}

/// The texts of a list of strings.
pub open spec fn texts_view(list: Seq<String>) -> Seq<Seq<char>> {
    Seq::new(list.len(), |i: int| list[i]@)
}

/// Whether a list of strings holds a text.
pub fn contains_text(list: &Vec<String>, wanted: &str) -> (r: bool)
    ensures
        r == texts_view(list@).contains(wanted@),
{
    let ghost all = texts_view(list@);
    let mut k: usize = 0;
    while k < list.len()
        invariant
            k <= list.len(),
            all == texts_view(list@),
            forall|m: int| 0 <= m < k ==> (#[trigger] all[m]) != wanted@,
        decreases list.len() - k,
    {
        if text_eq(list[k].as_str(), wanted) {
            assert(all[k as int] == wanted@);
            return true;
        }
        k = k + 1;
    }
    false
}

/// The logical keys of the kept events of the first `n` messages.
spec fn kept_keys(job: Seq<char>, messages: Seq<MessageView>, n: int) -> Seq<Seq<char>>
    decreases n,
{
    if n <= 0 {
        Seq::empty()
    } else if is_kept(job, messages, n - 1) {
        kept_keys(job, messages, n - 1).push(key_at(job, messages, n - 1))
    } else {
        kept_keys(job, messages, n - 1)
    }
}

/// The keys of the kept events are those of all candidates.
proof fn lemma_kept_keys(job: Seq<char>, messages: Seq<MessageView>, n: int)
    requires
        0 <= n,
    ensures
        forall|j: int|
            0 <= j < n && #[trigger] is_candidate(job, messages, j) ==> kept_keys(
                job,
                messages,
                n,
            ).contains(key_at(job, messages, j)),
        forall|key: Seq<char>| #[trigger]
            kept_keys(job, messages, n).contains(key) ==> exists|j: int|
                0 <= j < n && #[trigger] is_candidate(job, messages, j) && key_at(job, messages, j)
                    == key,
    decreases n,
{
    if n > 0 {
        let m = n - 1;
        lemma_kept_keys(job, messages, m);
        let before = kept_keys(job, messages, m);
        let after = kept_keys(job, messages, n);
        assert forall|key: Seq<char>| before.contains(key) implies after.contains(key) by {
            let k = choose|k: int| 0 <= k < before.len() && before[k] == key;
            assert(after[k] == key);
        }
        if is_kept(job, messages, m) {
            assert(after[before.len() as int] == key_at(job, messages, m));
        } else if is_candidate(job, messages, m) {
            let j = choose|j: int|
                0 <= j < m && #[trigger] is_candidate(job, messages, j) && key_at(job, messages, j)
                    == key_at(job, messages, m);
            assert(before.contains(key_at(job, messages, j)));
        }
        assert forall|j: int|
            0 <= j < n && #[trigger] is_candidate(job, messages, j) implies after.contains(
            key_at(job, messages, j),
        ) by {
            if j < m {
                assert(before.contains(key_at(job, messages, j)));
            }
        }
        assert forall|key: Seq<char>| #[trigger] after.contains(key) implies exists|j: int|
            0 <= j < n && #[trigger] is_candidate(job, messages, j) && key_at(job, messages, j)
                == key by {
            if before.contains(key) {
                let j = choose|j: int|
                    0 <= j < m && #[trigger] is_candidate(job, messages, j) && key_at(
                        job,
                        messages,
                        j,
                    ) == key;
                assert(is_candidate(job, messages, j));
            } else {
                let k = choose|k: int| 0 <= k < after.len() && after[k] == key;
                assert(k == before.len()) by {
                    if k < before.len() {
                        assert(before[k] == key);
                    }
                }
                assert(is_candidate(job, messages, m));
            }
        }
    }
}

/// An event is kept just where it is a candidate with a key not yet seen.
proof fn lemma_kept(job: Seq<char>, messages: Seq<MessageView>, n: int)
    requires
        0 <= n,
    ensures
        is_kept(job, messages, n) <==> is_candidate(job, messages, n) && !kept_keys(
            job,
            messages,
            n,
        ).contains(key_at(job, messages, n)),
{
    lemma_kept_keys(job, messages, n);
}

/// Reads the events of a job from a message history: official ones only, bound
/// to exactly this job, each once, in the order of their times.
pub fn events_from_history(job_id: &str, messages: &[HistoryMessage]) -> (r: Vec<LifecycleEvent>)
    ensures
        events_view(r@) == history_events(job_id@, messages_view(messages@)),
{
    let ghost all = messages_view(messages@);
    let mut keys: Vec<String> = Vec::new();
    let mut events: Vec<LifecycleEvent> = Vec::new();
    assert(events_view(events@) =~= sorted_events(kept_events(job_id@, all, 0)));
    assert(texts_view(keys@) =~= kept_keys(job_id@, all, 0));
    let mut i: usize = 0;
    while i < messages.len()
        invariant
            i <= messages@.len(),
            all == messages_view(messages@),
            events_view(events@) == sorted_events(kept_events(job_id@, all, i as int)),
            texts_view(keys@) == kept_keys(job_id@, all, i as int),
        decreases messages@.len() - i,
    {
        proof {
            lemma_kept(job_id@, all, i as int);
        }
        if !repeats_id(messages, i) {
            if let Some(event) = event_from_message(job_id, &messages[i]) {
                let key = event_key(job_id, &event);
                if !contains_text(&keys, key.as_str()) {
                    proof {
                        let kept = kept_events(job_id@, all, i + 1);
                        assert(kept.drop_last() =~= kept_events(job_id@, all, i as int));
                        assert(kept.last() == event@);
                    }
                    place_event(&mut events, event);
                    keys.push(key);
                    assert(texts_view(keys@) =~= kept_keys(job_id@, all, i + 1));
                }
            }
        }
        i = i + 1;
    }
    events
}

} // verus!
