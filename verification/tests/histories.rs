use task_lifecycle::display::LocalTimes;
use task_lifecycle::display::Scene;
use task_lifecycle::events::{event_kind, events_from_history, HistoryMessage, LifecycleEventKind};
use task_lifecycle::history::{
    parse_history, read_scoped_local_history, user_deliverable_name, CommandRow, DeliverableEntry,
    DeliverableManifest, LocalHistoryRead, PathPart,
};
use task_lifecycle::json::{InvalidJson, Json};
use task_lifecycle::milestones::{
    events_conflict_with_status, fold_milestones, merge_detail_milestones, status_from_event,
    Milestones,
};
use task_lifecycle::phase::{LifecycleConfidence, LifecyclePhase};
use task_lifecycle::snapshot::{
    build_snapshot, build_task_snapshot, snapshot_from_local_fallback, unavailable_snapshot,
};
use task_lifecycle::status::Status;

fn json(text: &str) -> Json {
    Json::parse(text).unwrap()
}

fn message(id: &str, content: &str) -> HistoryMessage {
    HistoryMessage {
        id: id.to_string(),
        sender_inbox_id: None,
        content: json(content),
        sent_at: None,
        delivery_status: None,
    }
}

fn event(id: &str, name: &str, rest: &str) -> HistoryMessage {
    message(
        id,
        &format!(r#"{{"source":"system","event":"{name}","jobId":"j"{rest}}}"#),
    )
}

#[test]
fn event_names_ignore_case_and_white_space() {
    assert_eq!(event_kind(" Job_CREATED\n"), Some(LifecycleEventKind::Created));
    assert_eq!(event_kind("submit_expired"), Some(LifecycleEventKind::Expired));
    assert_eq!(event_kind("job_auto_completed"), Some(LifecycleEventKind::Completed));
    assert_eq!(event_kind("job_cancelled"), None);
    let events = events_from_history("j", &[event("1", " JOB_Accepted ", "")]);
    assert_eq!(events[0].name, "job_accepted");
}

#[test]
fn dated_events_come_first_then_the_others_by_text_then_by_message() {
    let rows = vec![
        event("d", "job_created", r#","timestamp":"soon""#),
        event("c", "job_accepted", ""),
        event("b", "job_submitted", r#","timestamp":20"#),
        event("a", "job_completed", r#","timestamp":"20""#),
        event("e", "job_rejected", r#","timestamp":1700000000000"#),
    ];
    let events = events_from_history("j", &rows);
    let order: Vec<&str> = events.iter().map(|e| e.message_id.as_str()).collect();
    assert_eq!(order, ["a", "b", "e", "c", "d"]);
}

#[test]
fn events_are_kept_once_by_id_or_by_name_and_time() {
    let rows = vec![
        event("1", "job_created", r#","eventId":"x""#),
        event("2", "job_accepted", r#","eventId":"x""#),
        event("3", "job_submitted", r#","timestamp":5"#),
        event("4", "JOB_submitted", r#","timestamp":5"#),
        event("5", "job_submitted", r#","timestamp":6"#),
        event("5", "job_completed", r#","timestamp":7"#),
    ];
    let events = events_from_history("j", &rows);
    let ids: Vec<&str> = events.iter().map(|e| e.message_id.as_str()).collect();
    assert_eq!(ids, ["3", "5", "1"]);
}

#[test]
fn a_message_that_repeats_an_id_is_passed_over_even_if_the_first_states_no_event() {
    let rows = vec![
        message("1", r#"{"note":"hello"}"#),
        event("1", "job_created", ""),
    ];
    assert!(events_from_history("j", &rows).is_empty());
}

#[test]
fn nested_and_encoded_envelopes_are_opened() {
    let rows = vec![
        message(
            "1",
            r#"{"source":"peer","message":{"source":"SYSTEM","event":"job_created","jobId":"j"}}"#,
        ),
        message(
            "2",
            r#""{\"source\":\"system\",\"event\":\"job_accepted\",\"jobId\":\"j\"}""#,
        ),
        message("3", r#"{"message":"text","source":"system","event":"job_rejected","jobId":"j"}"#),
        message("4", r#"["source"]"#),
        message("5", r#""[1]""#),
        message("6", r#"{"source":"system","event":5,"jobId":"j"}"#),
    ];
    let events = events_from_history("j", &rows);
    assert_eq!(events.len(), 3);
}

#[test]
fn events_take_times_deadlines_and_reasons_from_the_first_key_that_has_one() {
    let mut row = event(
        "1",
        "sub_renew",
        r#","eventTime":2,"createdAt":1,"expireTime":9,"trialEndTime":8,"renewResult":"","winner":"asp","refundReason":"late","reason":"x","status":"done","subStatus":4"#,
    );
    row.sent_at = Some("7".to_string());
    let events = events_from_history("j", &[row]);
    assert_eq!(events[0].occurred_at.as_deref(), Some("2"));
    assert_eq!(events[0].deadline_at.as_deref(), Some("8"));
    assert_eq!(events[0].outcome.as_deref(), Some("asp"));
    assert_eq!(events[0].reason.as_deref(), Some("late"));
    assert_eq!(events[0].authoritative_status.as_deref(), Some("4"));
    assert_eq!(events[0].job_type, Some(1));

    let mut sent = event("1", "job_created", r#","jobType":"ONE_TIME""#);
    sent.sent_at = Some("7".to_string());
    let sent = events_from_history("j", &[sent]);
    assert_eq!(sent[0].occurred_at.as_deref(), Some("7"));
    assert_eq!(sent[0].job_type, Some(0));
}

#[test]
fn a_history_that_is_no_json_is_an_error_and_no_array_is_empty() {
    assert_eq!(parse_history("not json"), Err(InvalidJson));
    assert_eq!(parse_history("{\"id\":\"m\"}"), Ok(Vec::new()));
}

#[test]
fn the_first_known_time_of_a_kind_is_the_milestone() {
    let rows = vec![
        event("1", "job_created", ""),
        event("2", "job_created", r#","timestamp":50"#),
        event("3", "job_created", r#","timestamp":40"#),
    ];
    let milestones = fold_milestones(&events_from_history("j", &rows));
    assert_eq!(milestones.created_at.as_deref(), Some("40"));
}

#[test]
fn merging_keeps_known_milestones() {
    let mut milestones = Milestones {
        created_at: Some("1".to_string()),
        ..Milestones::default()
    };
    let detail = json(r#"{"createdAt":2,"acceptTime":3,"expiredAt":" ","refundTime":"4"}"#);
    merge_detail_milestones(&mut milestones, &detail);
    assert_eq!(milestones.created_at.as_deref(), Some("1"));
    assert_eq!(milestones.accepted_at.as_deref(), Some("3"));
    assert_eq!(milestones.expired_at, None);
    assert_eq!(milestones.refunded_at.as_deref(), Some("4"));
    let once = milestones.clone();
    merge_detail_milestones(&mut milestones, &detail);
    assert_eq!(milestones, once);
}

#[test]
fn a_stated_status_wins_over_the_kind_of_the_event() {
    let status = |name: &str, rest: &str| {
        let events = events_from_history("j", &[event("1", name, rest)]);
        status_from_event(&events[0])
    };
    assert_eq!(status("job_created", r#","status":"6""#), Some(Status::Completed));
    assert_eq!(status("job_created", r#","status":" Expired ""#), Some(Status::Expired));
    assert_eq!(status("job_created", r#","status":"soon""#), Some(Status::Created));
    assert_eq!(status("job_created", r#","status":77"#), Some(Status::Other("unknown_77".to_string())));
    assert_eq!(status("dispute_resolved", ""), None);
    assert_eq!(status("sub_open", ""), None);
    assert_eq!(status("job_asp_reject_expire", ""), Some(Status::Failed));
}

#[test]
fn endings_that_differ_from_the_status_conflict() {
    let closed = events_from_history("j", &[event("1", "job_closed", "")]);
    assert!(!events_conflict_with_status(&Status::Close, &closed));
    assert!(!events_conflict_with_status(&Status::AdminStopped, &closed));
    assert!(events_conflict_with_status(&Status::Completed, &closed));
    assert!(events_conflict_with_status(&Status::Accepted, &closed));
    assert!(!events_conflict_with_status(&Status::Accepted, &[]));
    let resolved = events_from_history("j", &[event("1", "dispute_resolved", r#","status":6"#)]);
    assert!(events_conflict_with_status(&Status::Failed, &resolved));
    assert!(!events_conflict_with_status(&Status::Completed, &resolved));
    let snapshot = build_snapshot("j", &Status::Accepted, &[event("1", "job_closed", "")]);
    assert_eq!(snapshot.confidence, LifecycleConfidence::Conflict);
    assert_eq!(snapshot.phase, LifecyclePhase::AspExecuting);
    assert_eq!(snapshot.status_label, "ASP executing");
}

#[test]
fn unknown_statuses_are_unknown_with_or_without_history() {
    let future = Status::Other("future".to_string());
    for rows in [vec![], vec![event("1", "job_closed", "")]] {
        let snapshot = build_snapshot("j", &future, &rows);
        assert_eq!(snapshot.confidence, LifecycleConfidence::Unknown);
        assert_eq!(snapshot.phase, LifecyclePhase::Unknown);
        assert_eq!(snapshot.authoritative_status, "future");
    }
}

#[test]
fn unavailable_snapshots_say_why() {
    let snapshot = unavailable_snapshot("j", "because");
    assert_eq!(snapshot.display.notice.as_deref(), Some("because"));
    assert_eq!(snapshot.task_type, "unknown");
    assert_eq!(snapshot.status_source, "unavailable");
    assert_eq!(snapshot.authoritative_status, "unavailable");
    assert!(!snapshot.history_read_succeeded);
    assert!(snapshot.synced_at.ends_with("+00:00"));
    assert!(chrono::DateTime::parse_from_rfc3339(&snapshot.synced_at).is_ok());
}

#[test]
fn local_fallback_needs_the_type_and_a_status() {
    let read = |rows: Vec<HistoryMessage>| LocalHistoryRead {
        messages: rows,
        read_succeeded: true,
    };
    let usable = snapshot_from_local_fallback(
        "j",
        &read(vec![event("1", "job_submitted", r#","jobType":0,"timestamp":1700000000"#)]),
        true,
    );
    assert_eq!(usable.status_source, "local_official_event");
    assert_eq!(usable.confidence, LifecycleConfidence::Partial);
    assert_eq!(usable.review_deadline_at.as_deref(), Some("1700259200"));
    assert!(usable.display.review_ready);

    let untyped = snapshot_from_local_fallback("j", &read(vec![event("1", "job_submitted", "")]), true);
    assert_eq!(untyped.task_type, "unknown");
    assert_eq!(untyped.history_event_count, 1);
    assert!(untyped.history_available && untyped.history_read_succeeded);
    assert_eq!(untyped.phase, LifecyclePhase::Unknown);

    let subscription = snapshot_from_local_fallback("j", &read(vec![event("1", "sub_open", "")]), true);
    assert_eq!(subscription.task_type, "subscription");
    let other = snapshot_from_local_fallback(
        "j",
        &read(vec![event("1", "job_created", r#","jobType":7"#)]),
        true,
    );
    assert_eq!(other.task_type, "unsupported");
    let no_status = snapshot_from_local_fallback(
        "j",
        &read(vec![event("1", "dispute_resolved", r#","jobType":0"#)]),
        true,
    );
    assert_eq!(no_status.task_type, "unsupported");
    assert_eq!(
        no_status.display.notice.as_deref(),
        Some("Verified local task history is incomplete.")
    );
}

#[test]
fn task_snapshots_combine_detail_and_history() {
    let detail = json(
        r#"{"status":2,"jobType":0,"providerAgentId":12,"submitTime":1700000000,"refundAmount":"5"}"#,
    );
    let snapshot = build_task_snapshot("j", &detail, &Status::Submitted, false, &[], true, true);
    assert_eq!(snapshot.asp_agent_id.as_deref(), Some("12"));
    assert_eq!(snapshot.review_deadline_at.as_deref(), Some("1700259200"));
    assert_eq!(snapshot.milestones.submitted_at.as_deref(), Some("1700000000"));
    assert_eq!(snapshot.status_source, "task_api");
    assert!(snapshot.display.review_ready);
    assert!(snapshot.display.notice.is_some());
    let local = build_task_snapshot("j", &detail, &Status::Submitted, true, &[], true, false);
    assert_eq!(local.status_source, "local_official_event");
    assert_eq!(local.confidence, LifecycleConfidence::Partial);
    assert_eq!(local.display.handled_by, "ASP");
}

#[test]
fn a_later_event_does_not_change_what_the_status_says() {
    let detail = json(r#"{"providerAgentId":12}"#);
    let events = [message(
        "1",
        r#"{"source":"system","event":"job_completed","jobId":"j","timestamp":1700000000}"#,
    )];
    let plain = build_task_snapshot("j", &detail, &Status::Accepted, false, &[], true, false);
    let told = build_task_snapshot("j", &detail, &Status::Accepted, false, &events, true, false);
    assert_eq!(plain.history_event_count, 0);
    assert_eq!(told.history_event_count, 1);
    assert_eq!(told.phase, plain.phase);
    assert_eq!(told.status_label, plain.status_label);
    assert_eq!(told.next_action, plain.next_action);
    assert_eq!(told.asp_agent_id.as_deref(), Some("12"));
}

#[test]
fn the_local_store_is_not_read_for_unsafe_keys() {
    let rows = vec![CommandRow {
        id: "r".to_string(),
        command_json: r#"{"agentId":"u","content":{"source":"system","event":"job_created","jobId":"j"}}"#.to_string(),
        created_at_ms: Some(-5),
    }];
    let read = read_scoped_local_history("j", "u", Some(&rows));
    assert_eq!(read.messages.len(), 1);
    assert_eq!(read.messages[0].id, "r");
    assert_eq!(read.messages[0].sent_at.as_deref(), Some("-5"));
    assert_eq!(read.messages[0].delivery_status.as_deref(), Some("local"));
    let unsafe_read = read_scoped_local_history("j'", "u", Some(&rows));
    assert!(!unsafe_read.read_succeeded);
    assert!(unsafe_read.messages.is_empty());
    assert!(!read_scoped_local_history("j", "", Some(&rows)).read_succeeded);
    let other_job = read_scoped_local_history("k", "u", Some(&rows));
    assert!(other_job.read_succeeded && other_job.messages.is_empty());
}

#[test]
fn a_deliverable_is_a_plain_file_name_of_the_last_entry() {
    let manifest = |role: &str, parts: Vec<PathPart>| DeliverableManifest {
        job_id: "j".to_string(),
        role: role.to_string(),
        entries: vec![
            DeliverableEntry { filename: "old".to_string(), parts: vec![PathPart::Normal] },
            DeliverableEntry { filename: "new".to_string(), parts },
        ],
    };
    assert_eq!(
        user_deliverable_name(&manifest("user", vec![PathPart::Normal]), "j"),
        Some("new".to_string())
    );
    assert_eq!(user_deliverable_name(&manifest("asp", vec![PathPart::Normal]), "j"), None);
    assert_eq!(user_deliverable_name(&manifest("user", vec![PathPart::Normal]), "k"), None);
    assert_eq!(user_deliverable_name(&manifest("user", vec![PathPart::Parent]), "j"), None);
    assert_eq!(
        user_deliverable_name(&manifest("user", vec![PathPart::Normal, PathPart::Normal]), "j"),
        None
    );
    let empty = DeliverableManifest {
        job_id: "j".to_string(),
        role: "user".to_string(),
        entries: vec![],
    };
    assert_eq!(user_deliverable_name(&empty, "j"), None);
}

fn times() -> Milestones {
    Milestones {
        created_at: Some("T1".to_string()),
        accepted_at: Some("T2".to_string()),
        submitted_at: Some("T3".to_string()),
        completed_at: Some("T4".to_string()),
        rejected_at: Some("T5".to_string()),
        dispute_requested_at: Some("T6".to_string()),
        disputed_at: Some("T7".to_string()),
        dispute_resolved_at: Some("T8".to_string()),
        review_expired_at: None,
        reject_expired_at: None,
        closed_at: Some("T9".to_string()),
        expired_at: None,
        refunded_at: None,
        failed_at: Some("T10".to_string()),
    }
}

#[test]
fn stages_are_drawn_with_their_times() {
    let local = LocalTimes {
        milestones: times(),
        review_deadline: Some("D".to_string()),
    };
    let known = times();
    let scene = |phase| Scene {
        phase,
        milestones: &known,
        times: &local,
        token_amount: Some("5"),
        token_symbol: Some("USDT"),
        events: &[],
        deliverable_available: true,
    };
    let refunded = scene(LifecyclePhase::Refunded).draw(None);
    assert_eq!(refunded.progress_step, 4);
    assert_eq!(refunded.timeline[2].detail.as_deref(), Some("T2 - T3"));
    assert_eq!(refunded.timeline[3].detail.as_deref(), Some("T5"));
    assert_eq!(refunded.timeline[4].title, "Task not completed");
    assert_eq!(refunded.follow_up[0].detail.as_deref(), Some("T7 - T8; result supports you"));
    assert_eq!(refunded.follow_up[1].detail.as_deref(), Some("T10; 5 USDT returned"));

    let completed = scene(LifecyclePhase::Completed).draw(Some("note"));
    assert_eq!(completed.follow_up[0].detail.as_deref(), Some("T7 - T8; result supports the ASP"));
    assert_eq!(completed.timeline[4].detail.as_deref(), Some("T4"));
    assert_eq!(completed.notice.as_deref(), Some("note"));

    let closed = scene(LifecyclePhase::Closed).draw(None);
    assert_eq!(closed.follow_up[0].detail.as_deref(), Some("T9"));
    assert_eq!(closed.timeline[3].detail.as_deref(), Some("T9"));
    assert_eq!(closed.current_summary, "Task closed");

    let review = scene(LifecyclePhase::WaitingForUserReview).draw(None);
    assert_eq!(
        review.timeline[3].detail.as_deref(),
        Some("T3 started; accept or reject by D")
    );
    assert_eq!(review.timeline[0].detail.as_deref(), Some("T1"));

    let trial = scene(LifecyclePhase::FreeTrial).draw(None);
    assert_eq!(trial.current_summary, "Task status unavailable");
    assert_eq!(trial.timeline[0].detail.as_deref(), Some("Not started"));
}

#[test]
fn a_task_that_never_began_times_out_at_acceptance() {
    let known = Milestones {
        expired_at: Some("1".to_string()),
        ..Milestones::default()
    };
    let local = LocalTimes {
        milestones: Milestones {
            expired_at: Some("E".to_string()),
            ..Milestones::default()
        },
        review_deadline: None,
    };
    let submit_expired = events_from_history("j", &[event("1", "submit_expired", "")]);
    let scene = |events| Scene {
        phase: LifecyclePhase::Expired,
        milestones: &known,
        times: &local,
        token_amount: None,
        token_symbol: None,
        events,
        deliverable_available: false,
    };
    let never = scene(&[]).draw(None);
    assert_eq!(never.progress_step, 2);
    assert_eq!(never.timeline[1].title, "ASP acceptance timed out");
    assert_eq!(never.timeline[1].detail.as_deref(), Some("E"));
    let begun = scene(&submit_expired).draw(None);
    assert_eq!(begun.progress_step, 3);
    assert_eq!(begun.timeline[1].title, "ASP accepted");
    assert_eq!(begun.timeline[2].title, "ASP submission timed out");
}
