use task_lifecycle::deadline::REVIEW_WINDOW_SECONDS;
use task_lifecycle::display::{build_display, initial_creation_display};
use task_lifecycle::events::{
    events_from_history, HistoryMessage, LifecycleEvent, LifecycleEventKind,
};
use task_lifecycle::history::{
    database_path_is_valid, parse_history, read_scoped_local_history, safe_lookup_key, CommandRow,
    DatabasePathFacts,
};
use task_lifecycle::identity::{select_current_wallet_user_agent, wallet_has_user_agent};
use task_lifecycle::json::Json;
use task_lifecycle::milestones::{
    fold_milestones, project_task_detail, reconcile_current, review_deadline, Milestones,
};
use task_lifecycle::phase::{LifecycleConfidence, LifecyclePhase};
use task_lifecycle::snapshot::build_snapshot;
use task_lifecycle::status::Status;
use task_lifecycle::subscription::{subscription_template_number, SubscriptionMilestones};
use task_lifecycle::subscription_snapshot::{
    build_subscription_snapshot, build_subscription_snapshot_with_user_close,
};

fn json(text: &str) -> Json {
    Json::parse(text).unwrap()
}

fn message(id: &str, content: &str, sent_at: &str) -> HistoryMessage {
    HistoryMessage {
        id: id.to_string(),
        sender_inbox_id: Some("official".to_string()),
        content: json(content),
        sent_at: Some(sent_at.to_string()),
        delivery_status: Some("published".to_string()),
    }
}

#[test]
fn history_parser_is_tolerant_of_optional_and_malformed_rows() {
    let parsed = parse_history(
        r#"[{"id":"m1","content":{"event":"job_created"},"sentAt":123},null,{"content":"missing id"},{"id":2,"content":null}]"#,
    )
    .unwrap();
    assert_eq!(parsed.len(), 2);
    assert_eq!(parsed[0].sent_at.as_deref(), Some("123"));
    assert_eq!(parsed[1].id, "2");
}

#[test]
fn structured_events_require_official_source_and_exact_job_id() {
    let rows = vec![
        message(
            "1",
            r#"{"source":"system","event":"job_created","jobId":"j"}"#,
            "1",
        ),
        message("2", r#"{"source":"system","event":"job_accepted"}"#, "2"),
        message(
            "3",
            r#"{"source":"peer","event":"job_accepted","jobId":"j"}"#,
            "3",
        ),
        message("4", r#""ASP says job_submitted""#, "4"),
    ];
    let events = events_from_history("j", &rows);
    assert_eq!(events.len(), 1);
    assert_eq!(events[0].kind, LifecycleEventKind::Created);
}

#[test]
fn deduplicates_and_sorts_numeric_timestamps_before_folding() {
    let rows = vec![
        message(
            "submitted",
            r#"{"source":"system","event":"job_submitted","jobId":"j","timestamp":30}"#,
            "30",
        ),
        message(
            "accepted",
            r#"{"source":"system","event":"job_accepted","jobId":"j","timestamp":9}"#,
            "9",
        ),
        message(
            "accepted",
            r#"{"source":"system","event":"job_accepted","jobId":"j","timestamp":10}"#,
            "10",
        ),
    ];
    let snapshot = build_snapshot("j", &Status::Submitted, &rows);
    assert_eq!(snapshot.events.len(), 2);
    assert_eq!(snapshot.milestones.accepted_at.as_deref(), Some("9"));
    assert_eq!(snapshot.milestones.submitted_at.as_deref(), Some("30"));
}

#[test]
fn empty_history_is_not_reported_as_available() {
    let snapshot = build_snapshot("j", &Status::Accepted, &[]);
    assert_eq!(snapshot.phase, LifecyclePhase::AspExecuting);
    assert_eq!(snapshot.confidence, LifecycleConfidence::Partial);
    assert!(!snapshot.history_available);
    assert!(snapshot.history_read_succeeded);
    assert_eq!(snapshot.history_event_count, 0);
}

#[test]
fn creation_result_has_a_display_ready_initial_five_stage_timeline() {
    let display = initial_creation_display();
    assert_eq!(display.progress_step, 1);
    assert_eq!(display.progress_total, 5);
    assert_eq!(display.timeline.len(), 5);
    assert_eq!(display.timeline[0].marker, "▶");
    assert_eq!(display.timeline[0].title, "Creating task");
    assert_eq!(
        display.timeline[0].detail.as_deref(),
        Some("Creation submitted; waiting for task confirmation")
    );
    assert_eq!(display.timeline[1].detail.as_deref(), Some("Not started"));
    assert_eq!(display.timeline[3].title, "Deliverable review");
    assert_eq!(display.timeline[4].detail.as_deref(), Some("Not completed"));
    assert!(!display.deliverable_available);
    assert!(!display.review_ready);
    assert!(display.notice.is_none());
}

#[test]
fn reject_expiry_is_refund_not_generic_expiry() {
    let rows = vec![message(
        "refund",
        r#"{"source":"system","event":"job_asp_reject_expire","jobId":"j","jobStatus":"failed"}"#,
        "40",
    )];
    let snapshot = build_snapshot("j", &Status::Failed, &rows);
    assert_eq!(snapshot.events[0].kind, LifecycleEventKind::Refunded);
    assert_eq!(snapshot.milestones.refunded_at.as_deref(), Some("40"));
    assert_eq!(snapshot.display.follow_up[0].title, "Refund completed");
}

#[test]
fn review_expiry_is_plain_language_and_does_not_fake_submission_time() {
    let rows = vec![message(
        "review-expired",
        r#"{"source":"system","event":"review_expired","jobId":"j","timestamp":40}"#,
        "40",
    )];
    let snapshot = build_snapshot("j", &Status::Submitted, &rows);
    assert_eq!(snapshot.milestones.submitted_at, None);
    assert_eq!(snapshot.milestones.review_expired_at.as_deref(), Some("40"));
    assert_eq!(
        snapshot.display.timeline[3].title,
        "Deliverable review period ended"
    );
    assert_eq!(snapshot.display.timeline[3].marker, "—");
}

#[test]
fn reject_expiry_waits_for_refund_without_claiming_it_completed() {
    let rows = vec![
        message(
            "rejected",
            r#"{"source":"system","event":"job_rejected","jobId":"j","timestamp":30}"#,
            "30",
        ),
        message(
            "reject-expired",
            r#"{"source":"system","event":"reject_expired","jobId":"j","timestamp":40}"#,
            "40",
        ),
    ];
    let snapshot = build_snapshot("j", &Status::Rejected, &rows);
    assert_eq!(snapshot.milestones.rejected_at.as_deref(), Some("30"));
    assert_eq!(snapshot.milestones.reject_expired_at.as_deref(), Some("40"));
    assert_eq!(snapshot.display.follow_up[0].title, "Waiting for refund");
    assert!(!snapshot
        .display
        .follow_up
        .iter()
        .any(|node| node.title == "Refund completed"));
}

#[test]
fn exact_deadline_wins_then_event_then_submitted_plus_three_days() {
    let submitted = 1_700_000_000_i64;
    let with_deadline = format!(
        r#"{{"source":"system","event":"job_submitted","jobId":"j","timestamp":{},"expireTime":{}}}"#,
        submitted,
        submitted + 123
    );
    let events = events_from_history(
        "j",
        &[message("submitted", &with_deadline, &submitted.to_string())],
    );
    let milestones = fold_milestones(&events);
    assert_eq!(
        review_deadline(
            &json(&format!(r#"{{"expireTime": {}}}"#, submitted + 456)),
            &events,
            &milestones
        ),
        Some(submitted + 456)
    );
    assert_eq!(
        review_deadline(&Json::Null, &events, &milestones),
        Some(submitted + 123)
    );

    let without_deadline = format!(
        r#"{{"source":"system","event":"job_submitted","jobId":"j","timestamp":{submitted}}}"#
    );
    let no_event_deadline = events_from_history(
        "j",
        &[message(
            "submitted",
            &without_deadline,
            &submitted.to_string(),
        )],
    );
    let milestones = fold_milestones(&no_event_deadline);
    assert_eq!(
        review_deadline(&Json::Null, &no_event_deadline, &milestones),
        Some(submitted + REVIEW_WINDOW_SECONDS)
    );
}

#[test]
fn current_wallet_user_agent_is_selected_without_task_detail_binding() {
    let agents = vec![
        json(r#"{"agentId":"asp-1","role":2}"#),
        json(r#"{"agentId":"user-1","role":1}"#),
    ];
    assert_eq!(
        select_current_wallet_user_agent(&agents, ""),
        Some("user-1".to_string())
    );
    assert_eq!(
        select_current_wallet_user_agent(&agents, "user-1"),
        Some("user-1".to_string())
    );
    assert_eq!(select_current_wallet_user_agent(&agents, "asp-1"), None);
}

#[test]
fn local_events_fill_missing_api_type_and_status() {
    let projected = project_task_detail(&json(
        r#"{"buyerAgentId": "user-1", "providerAgentId": "asp-1"}"#,
    ));
    let events = events_from_history(
        "j",
        &[message(
            "accepted",
            r#"{"source":"system","event":"job_accepted","jobId":"j","jobType":0,"jobStatus":"accepted","timestamp":20}"#,
            "20",
        )],
    );
    let reconciled = reconcile_current(&projected, &events);
    assert_eq!(reconciled.job_type, Some(0));
    assert_eq!(reconciled.status, Some(Status::Accepted));
    assert!(reconciled.status_from_local);
}

#[test]
fn evaluation_is_completed_only_with_a_resolved_event() {
    let started = build_snapshot(
        "j",
        &Status::Completed,
        &[message(
            "requested",
            r#"{"source":"system","event":"dispute_approved","jobId":"j","timestamp":30}"#,
            "30",
        )],
    );
    assert!(started.display.follow_up.is_empty());

    let resolved = build_snapshot(
        "j",
        &Status::Disputed,
        &[
            message(
                "disputed",
                r#"{"source":"system","event":"job_disputed","jobId":"j","timestamp":30}"#,
                "30",
            ),
            message(
                "resolved",
                r#"{"source":"system","event":"dispute_resolved","jobId":"j","timestamp":40}"#,
                "40",
            ),
        ],
    );
    assert_eq!(
        resolved.display.follow_up[0].title,
        "Platform review completed"
    );
    assert_eq!(resolved.display.follow_up[0].marker, "✓");
}

#[test]
fn early_refund_keeps_unreached_normal_stages_pending() {
    let snapshot = build_snapshot(
        "j",
        &Status::Failed,
        &[message(
            "refund",
            r#"{"source":"system","event":"job_auto_refunded","jobId":"j","timestamp":40}"#,
            "40",
        )],
    );
    assert_eq!(
        snapshot.display.timeline[1].detail.as_deref(),
        Some("Not started")
    );
    assert_eq!(
        snapshot.display.timeline[2].detail.as_deref(),
        Some("Not started")
    );
    assert_eq!(
        snapshot.display.timeline[3].detail.as_deref(),
        Some("Not started")
    );
}

#[test]
fn expiration_after_submission_keeps_execution_completed() {
    let snapshot = build_snapshot(
        "j",
        &Status::Expired,
        &[
            message(
                "accepted",
                r#"{"source":"system","event":"job_accepted","jobId":"j","timestamp":20}"#,
                "20",
            ),
            message(
                "submitted",
                r#"{"source":"system","event":"job_submitted","jobId":"j","timestamp":30}"#,
                "30",
            ),
            message(
                "expired",
                r#"{"source":"system","event":"job_expired","jobId":"j","timestamp":40}"#,
                "40",
            ),
        ],
    );
    assert_eq!(snapshot.display.timeline[2].title, "ASP executed");
    assert_eq!(snapshot.display.timeline[2].marker, "✓");
    assert_eq!(
        snapshot.display.timeline[3].title,
        "Deliverable review period ended"
    );
}

#[test]
fn missing_submitted_time_never_uses_now_for_deadline() {
    assert_eq!(
        review_deadline(
            &json(r#"{"expireConfig":{"reviewDeadline":259200}}"#),
            &[],
            &Milestones::default()
        ),
        None
    );
}

#[test]
fn display_always_has_five_nodes_and_one_detail_per_node() {
    for status in [
        Status::Init,
        Status::Created,
        Status::Accepted,
        Status::Submitted,
        Status::Rejected,
        Status::Disputed,
        Status::Completed,
        Status::Close,
        Status::Expired,
        Status::Failed,
        Status::Other("future".to_string()),
    ] {
        let snapshot = build_snapshot("j", &status, &[]);
        assert_eq!(snapshot.display.timeline.len(), 5);
        assert!(snapshot.display.timeline.iter().all(|node| node
            .detail
            .as_deref()
            .map_or(true, |line| !line.contains('\n'))));
    }
}

#[test]
fn incomplete_final_node_differs_from_other_future_nodes() {
    let snapshot = build_snapshot("j", &Status::Accepted, &[]);
    assert_eq!(
        snapshot.display.timeline[3].detail.as_deref(),
        Some("Not started")
    );
    assert_eq!(
        snapshot.display.timeline[4].detail.as_deref(),
        Some("Not completed")
    );
}

#[test]
fn deliverable_before_submitted_status_waits_for_status_update() {
    let display = build_display(
        LifecyclePhase::AspExecuting,
        &Milestones::default(),
        None,
        None,
        None,
        &[],
        true,
        None,
    );
    assert_eq!(display.timeline[3].marker, "○");
    assert_eq!(display.timeline[3].title, "Deliverable review");
    assert_eq!(
        display.timeline[3].detail.as_deref(),
        Some("Deliverable received; waiting for the task status update")
    );
    assert_eq!(display.handled_by, "ASP");
    assert!(!display.next.contains("Accept or reject"));
    assert!(display.deliverable_available);
    assert!(!display.review_ready);
}

#[test]
fn submitted_status_requires_deliverable_before_review_guidance() {
    let milestones = Milestones {
        submitted_at: Some("1700000000".to_string()),
        ..Milestones::default()
    };
    let waiting = build_display(
        LifecyclePhase::WaitingForUserReview,
        &milestones,
        Some("1700259200"),
        None,
        None,
        &[],
        false,
        None,
    );
    let ready = build_display(
        LifecyclePhase::WaitingForUserReview,
        &milestones,
        Some("1700259200"),
        None,
        None,
        &[],
        true,
        None,
    );

    assert_eq!(waiting.timeline[3].marker, ready.timeline[3].marker);
    assert_eq!(waiting.timeline[3].title, ready.timeline[3].title);
    assert!(waiting.timeline[3]
        .detail
        .as_deref()
        .is_some_and(|detail| detail.contains("waiting for the deliverable")));
    assert_eq!(waiting.handled_by, "ASP");
    assert_eq!(waiting.next, "Wait for the deliverable to arrive");
    assert!(!waiting.deliverable_available);
    assert!(!waiting.review_ready);
    assert!(ready.timeline[3]
        .detail
        .as_deref()
        .is_some_and(|detail| detail.contains("accept or reject by")));
    assert_eq!(ready.handled_by, "You");
    assert_eq!(ready.next, "Accept or reject the deliverable");
    assert!(ready.deliverable_available);
    assert!(ready.review_ready);
}

#[test]
fn refund_omits_unavailable_detail_fields() {
    let snapshot = build_snapshot("j", &Status::Failed, &[]);
    let refund = snapshot
        .display
        .follow_up
        .iter()
        .find(|node| node.key == "refund")
        .unwrap();
    assert_eq!(refund.detail, None);
}

#[test]
fn local_lookup_keys_are_bounded_and_allowlisted() {
    assert!(safe_lookup_key("0xabc-123_test"));
    assert!(!safe_lookup_key("job' OR 1=1 --"));
    assert!(!safe_lookup_key("../../other.sqlite"));
    assert!(!safe_lookup_key(&"a".repeat(257)));
}

#[test]
fn local_rows_are_scoped_and_filter_other_users() {
    let own_content = r#"{\"clientAgentId\":\"user-1\",\"message\":{\"source\":\"system\",\"event\":\"job_created\",\"jobId\":\"job-1\",\"jobType\":0,\"jobStatus\":\"created\",\"timestamp\":1}}"#;
    let other_content = r#"{\"clientAgentId\":\"user-2\",\"message\":{\"source\":\"system\",\"event\":\"job_accepted\",\"jobId\":\"job-1\",\"jobType\":0,\"timestamp\":2}}"#;
    let rows = vec![
        CommandRow {
            id: "row-own".to_string(),
            command_json: format!(
                r#"{{"type":"ai-dispatch","agentId":"asp-1","clientAgentId":"user-1","messageId":"m-own","content":"{own_content}"}}"#
            ),
            created_at_ms: Some(1),
        },
        CommandRow {
            id: "row-other".to_string(),
            command_json: format!(
                r#"{{"type":"ai-dispatch","clientAgentId":"user-2","content":"{other_content}"}}"#
            ),
            created_at_ms: Some(2),
        },
    ];
    let read = read_scoped_local_history("job-1", "user-1", Some(&rows));
    assert!(read.read_succeeded);
    assert_eq!(read.messages.len(), 1);
    assert_eq!(read.messages[0].id, "m-own");
    assert_eq!(events_from_history("job-1", &read.messages).len(), 1);
}

#[test]
fn local_fallback_requires_an_owned_user_identity_not_an_asp_identity() {
    let agents = vec![
        json(r#"{"agentId":"user-1","role":1}"#),
        json(r#"{"agentId":"asp-1","role":2}"#),
        json(r#"{"agentId":"user-2","role":"user"}"#),
    ];
    assert!(wallet_has_user_agent(&agents, "user-1"));
    assert!(wallet_has_user_agent(&agents, "user-2"));
    assert!(!wallet_has_user_agent(&agents, "asp-1"));
    assert!(!wallet_has_user_agent(&agents, "unknown"));
}

#[test]
fn unreadable_local_store_degrades_without_error() {
    let missing = DatabasePathFacts {
        root_is_symlink: Some(false),
        directory_is_symlink: None,
        database_is_symlink: None,
        database_is_file: None,
        database_is_below_root: None,
    };
    assert!(!database_path_is_valid(&missing));
    let read = read_scoped_local_history("job-1", "user-1", None);
    assert!(!read.read_succeeded);
    assert!(read.messages.is_empty());
}

#[test]
fn symlinked_local_store_is_rejected() {
    let facts = DatabasePathFacts {
        root_is_symlink: Some(false),
        directory_is_symlink: Some(false),
        database_is_symlink: Some(true),
        database_is_file: Some(true),
        database_is_below_root: Some(false),
    };
    assert!(!database_path_is_valid(&facts));
    let plain = DatabasePathFacts {
        database_is_symlink: Some(false),
        database_is_below_root: Some(true),
        ..facts
    };
    assert!(database_path_is_valid(&plain));
}

#[test]
fn subscription_projection_distinguishes_trial_active_and_grace_period() {
    let trial = build_subscription_snapshot(
        "sub-1",
        &json(
            r#"{"jobId":"sub-1","status":1,"trialType":1,"autoRenew":1,"trialStartTime":1800000000,"trialEndTime":1800259200,"providerAgentId":"2002"}"#,
        ),
        Vec::new(),
        true,
    );
    assert_eq!(trial.phase, LifecyclePhase::FreeTrial);
    assert_eq!(trial.responsible_party, "asp");
    assert_eq!(trial.display.template_id.as_deref(), Some("Sub-Status-3"));
    assert_eq!(trial.display.progress_total, 4);
    assert_eq!(trial.display.timeline[2].marker, "▶");
    assert_eq!(trial.display.timeline[2].title, "ASP providing service");
    assert_eq!(trial.display.timeline[3].marker, "○");

    let active = build_subscription_snapshot(
        "sub-2",
        &json(
            r#"{"jobId":"sub-2","status":1,"trialType":0,"autoRenew":0,"subStartTime":1800000000,"subEndTime":1802592000}"#,
        ),
        Vec::new(),
        true,
    );
    assert_eq!(active.phase, LifecyclePhase::ActiveSubscription);
    assert_eq!(active.display.template_id.as_deref(), Some("Sub-Status-5"));
    assert_eq!(
        active.status_label,
        "Subscription active; auto-renewal disabled"
    );
    assert!(active.next_action.contains("Enable auto-renewal"));

    let grace = build_subscription_snapshot(
        "sub-3",
        &json(
            r#"{"jobId":"sub-3","status":1,"trialType":0,"autoRenew":1,"subEndTime":1700000000,"subBufferEndTime":2000000000}"#,
        ),
        Vec::new(),
        true,
    );
    assert_eq!(grace.phase, LifecyclePhase::RenewalGracePeriod);
    assert_eq!(grace.display.template_id.as_deref(), Some("Sub-Status-11"));
    assert_eq!(grace.responsible_party, "user");
}

#[test]
fn subscription_projection_covers_refund_and_evaluation_branches() {
    for (status, expected) in [
        (0, LifecyclePhase::WaitingForAsp),
        (3, LifecyclePhase::AwaitingAspDecision),
        (4, LifecyclePhase::Disputed),
        (6, LifecyclePhase::Completed),
        (7, LifecyclePhase::Closed),
        (8, LifecyclePhase::Expired),
    ] {
        let snapshot = build_subscription_snapshot(
            "sub-state",
            &json(&format!(r#"{{"jobId":"sub-state","status":{status}}}"#)),
            Vec::new(),
            true,
        );
        assert_eq!(snapshot.phase, expected, "status={status}");
    }

    let unverified = build_subscription_snapshot(
        "sub-failed",
        &json(r#"{"jobId":"sub-failed","status":9}"#),
        Vec::new(),
        true,
    );
    assert_eq!(unverified.phase, LifecyclePhase::Failed);
    assert!(unverified.status_label.contains("reconciliation"));
    assert!(unverified.display.template_id.is_none());
    assert_eq!(unverified.display.progress_step, 4);

    let formal_refund = build_subscription_snapshot(
        "sub-formal-refund",
        &json(
            r#"{"jobId":"sub-formal-refund","status":9,"trialType":0,"paymentTokenAmount":"10.00","paymentTokenSymbol":"USDT"}"#,
        ),
        Vec::new(),
        true,
    );
    assert_eq!(formal_refund.phase, LifecyclePhase::Refunded);
    assert_eq!(
        formal_refund.display.template_id.as_deref(),
        Some("Sub-Status-15")
    );
    assert_eq!(formal_refund.display.progress_step, 5);

    let refunded = build_subscription_snapshot(
        "sub-refunded",
        &json(
            r#"{"jobId":"sub-refunded","status":9,"refundedAt":1800000000,"refundTxHash":"0xabc"}"#,
        ),
        Vec::new(),
        true,
    );
    assert_eq!(refunded.phase, LifecyclePhase::Refunded);
    assert_eq!(
        refunded.display.template_id.as_deref(),
        Some("Sub-Status-15")
    );
    assert_eq!(refunded.status_label, "Refund completed; task closed");

    let accept_expired = build_subscription_snapshot(
        "sub-expired",
        &json(r#"{"jobId":"sub-expired","status":8}"#),
        Vec::new(),
        true,
    );
    assert_eq!(
        accept_expired.display.template_id.as_deref(),
        Some("Sub-Status-7")
    );
    assert_eq!(accept_expired.display.progress_total, 3);

    let user_closed_expired = build_subscription_snapshot_with_user_close(
        "sub-user-closed",
        &json(r#"{"jobId":"sub-user-closed","status":8}"#),
        Vec::new(),
        true,
        true,
    );
    assert_eq!(
        user_closed_expired.display.template_id.as_deref(),
        Some("Sub-Status-8")
    );
    assert_eq!(user_closed_expired.status_label, "User closed the task");

    let awaiting = build_subscription_snapshot(
        "sub-awaiting",
        &json(r#"{"jobId":"sub-awaiting","status":0,"acceptDeadline":2000000000}"#),
        Vec::new(),
        true,
    );
    assert_eq!(
        awaiting.display.template_id.as_deref(),
        Some("Sub-Status-2")
    );
    assert_eq!(awaiting.display.timeline[1].marker, "▶");
    assert_eq!(awaiting.display.choices.len(), 2);

    let close_pending = build_subscription_snapshot_with_user_close(
        "sub-awaiting",
        &json(r#"{"jobId":"sub-awaiting","status":0,"acceptDeadline":2000000000}"#),
        Vec::new(),
        true,
        true,
    );
    assert_eq!(
        close_pending.display.template_id.as_deref(),
        Some("Sub-Status-2")
    );
    assert_eq!(close_pending.status_label, "Subscription closure submitted");
    assert_eq!(close_pending.responsible_party, "platform");
    assert_eq!(
        close_pending.display.current_summary,
        "Subscription closure submitted"
    );
    assert_eq!(close_pending.display.handled_by, "platform");
    assert!(close_pending
        .display
        .next
        .contains("wallet order to confirm the closure"));
    assert!(close_pending.display.choices.is_empty());
    assert!(close_pending
        .display
        .notice
        .as_deref()
        .is_some_and(|notice| notice.contains("Do not submit another close request")));
}

fn template_events(name: &str) -> Vec<LifecycleEvent> {
    let content = format!(
        r#"{{"source":"system","event":"{name}","jobId":"sub-template","timestamp":1800000000}}"#
    );
    events_from_history("sub-template", &[message(name, &content, "1800000000")])
}

#[test]
fn subscription_template_selector_covers_all_eighteen_approved_copy_branches() {
    let empty = SubscriptionMilestones::default();
    let mut accepted = SubscriptionMilestones::default();
    accepted.accepted_at = Some("1800000000".to_string());
    let mut grace_ended = accepted.clone();
    grace_ended.grace_period_ends_at = Some("1700000000".to_string());
    let cancelled = template_events("sub_cancel");
    let disputed = template_events("sub_asp_dispute");

    let cases = [
        (Some(-1), None, None, false, false, &empty, &[][..], Some(1)),
        (Some(0), None, None, false, false, &empty, &[][..], Some(2)),
        (Some(1), Some(1), Some(1), false, false, &accepted, &[][..], Some(3)),
        (Some(1), Some(0), Some(1), false, false, &accepted, &[][..], Some(4)),
        (Some(1), Some(0), Some(0), false, false, &accepted, &[][..], Some(5)),
        (Some(7), Some(0), None, false, false, &empty, &[][..], Some(6)),
        (Some(8), Some(0), None, false, false, &empty, &[][..], Some(7)),
        (Some(7), Some(0), None, false, false, &empty, &cancelled, Some(8)),
        (Some(9), Some(1), None, false, false, &accepted, &[][..], Some(9)),
        (Some(7), Some(1), None, false, false, &accepted, &cancelled, Some(10)),
        (Some(1), Some(0), Some(1), true, false, &accepted, &[][..], Some(11)),
        (Some(7), Some(0), Some(1), false, false, &grace_ended, &[][..], Some(12)),
        (Some(6), Some(0), None, false, false, &accepted, &[][..], Some(13)),
        (Some(3), Some(0), None, false, false, &accepted, &[][..], Some(14)),
        (Some(9), Some(0), None, false, true, &accepted, &[][..], Some(15)),
        (Some(4), Some(0), None, false, false, &accepted, &disputed, Some(16)),
        (Some(9), Some(0), None, false, true, &accepted, &disputed, Some(17)),
        (Some(6), Some(0), None, false, false, &accepted, &disputed, Some(18)),
    ];

    for (status, trial, renew, grace, refunded, milestones, history, expected) in cases {
        assert_eq!(
            subscription_template_number(
                status, trial, renew, grace, refunded, milestones, history, false
            ),
            expected
        );
    }

    assert_eq!(
        subscription_template_number(Some(7), Some(0), None, false, false, &empty, &[], true),
        Some(8),
        "a durable local Created-subscription close receipt fills the event propagation gap"
    );
}

#[test]
fn subscription_history_recognizes_official_sub_events() {
    let rows = vec![message(
        "m-sub",
        r#"{"source":"system","event":"sub_trial_into_active","jobId":"sub-1","timestamp":1800000000}"#,
        "1800000000",
    )];
    let events = events_from_history("sub-1", &rows);
    assert_eq!(events.len(), 1);
    assert_eq!(events[0].job_type, Some(1));
    assert_eq!(
        events[0].kind,
        LifecycleEventKind::SubscriptionTrialConverted
    );
}
