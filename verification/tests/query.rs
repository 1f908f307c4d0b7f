use task_lifecycle::active_tasks::{
    active_task_row, is_non_terminal, ordinary_task_kind, push_unique_active_task, ActiveTaskKind,
};
use task_lifecycle::identity::{
    classify_identities, format_ambiguous_identities, resolve_agent_id_or_error, Classification,
    IdentityError,
};
use task_lifecycle::json::Json;
use task_lifecycle::query::{
    role_label, role_name, status_code_for_task_type, status_copy_for_task_type, status_name,
    task_status_description, task_status_label, task_type_name,
};

fn json(text: &str) -> Json {
    Json::parse(text).unwrap()
}

fn agent(id: &str, role: i64) -> Json {
    json(&format!(r#"{{"agentId":"{id}","role":{role}}}"#))
}

#[test]
fn format_ambiguous_identities_enumerates_every_candidate() {
    let agents = [agent("2118", 2), agent("2210", 3), agent("2999", 1)];
    let msg = format_ambiguous_identities(&agents);
    assert!(
        msg.contains("has 3 identities"),
        "total count missing: {msg}"
    );
    for id in ["2118", "2210", "2999"] {
        assert!(msg.contains(id), "candidate {id} missing: {msg}");
    }
    for label in ["asp", "evaluator", "user"] {
        assert!(msg.contains(label), "role label {label} missing: {msg}");
    }
    assert!(msg.contains("--agent-id"), "selection hint missing: {msg}");
}

#[test]
fn format_ambiguous_identities_skips_malformed_entries() {
    let agents = [agent("2118", 2), json(r#"{"role":2}"#), agent("2999", 1)];
    let msg = format_ambiguous_identities(&agents);
    assert!(
        msg.contains("has 2 identities"),
        "count should reflect usable ids: {msg}"
    );
    assert!(msg.contains("2118") && msg.contains("2999"));
}

#[test]
fn classify_single_well_formed_is_one() {
    let agents = [agent("796", 1)];
    assert_eq!(
        classify_identities(&agents),
        Classification::One("796".into())
    );
}

#[test]
fn classify_single_well_formed_trims_whitespace() {
    let agents = [agent("  796  ", 1)];
    assert_eq!(
        classify_identities(&agents),
        Classification::One("796".into())
    );
}

#[test]
fn classify_empty_list_is_none() {
    assert_eq!(classify_identities(&[]), Classification::Empty);
}

#[test]
fn classify_two_or_more_is_many() {
    let agents = [agent("2118", 2), agent("2210", 2)];
    assert_eq!(classify_identities(&agents), Classification::Many);
}

#[test]
fn classify_single_malformed_entry() {
    assert_eq!(
        classify_identities(&[json(r#"{"role":2}"#)]),
        Classification::MalformedSingle
    );
    assert_eq!(
        classify_identities(&[agent("", 2)]),
        Classification::MalformedSingle
    );
}

#[test]
fn classify_multiple_all_malformed_is_none() {
    let agents = [json(r#"{"role":1}"#), agent("", 2)];
    assert_eq!(classify_identities(&agents), Classification::Empty);
}

#[test]
fn role_label_maps_known_and_unknown_codes() {
    assert_eq!(role_label(1), "user");
    assert_eq!(role_label(2), "asp");
    assert_eq!(role_label(3), "evaluator");
    assert_eq!(role_label(99), "unknown");
    for code in [1, 2, 3, 0, 99] {
        assert_eq!(role_label(code), role_name(code));
    }
}

#[test]
fn one_time_failed_backend_status_has_refund_business_label() {
    assert_eq!(status_name(9), "failed");
    assert_eq!(task_status_label(9), "Refund completed");
    assert_eq!(
        task_status_description(9),
        "The refund completed and the task is closed."
    );
}

#[test]
fn status_output_is_routed_by_task_type() {
    assert_eq!(task_type_name(Some(0)), "one_time");
    assert_eq!(task_type_name(Some(1)), "subscription");
    assert_eq!(task_type_name(None), "unknown");

    let detail = json(r#"{"status":1}"#);
    assert_eq!(
        status_copy_for_task_type(Some(0), 1, &detail, false).0,
        "In progress"
    );
    assert_eq!(
        status_copy_for_task_type(Some(1), 1, &detail, false).0,
        "Active"
    );
    assert_eq!(
        status_copy_for_task_type(None, 1, &detail, false).0,
        "Status unavailable"
    );
    assert_eq!(
        status_copy_for_task_type(Some(1), 1, &detail, false).1,
        "The subscription is active."
    );
    assert_eq!(
        status_copy_for_task_type(None, 1, &detail, false).1,
        "The task type is unknown, so its status cannot be interpreted safely."
    );
}

#[test]
fn subscription_status_comes_from_subscription_detail() {
    let task_detail = json(r#"{"jobType":1,"status":1}"#);
    let subscription_detail = json(r#"{"subStatus":7}"#);

    assert_eq!(
        status_code_for_task_type(Some(1), &task_detail, Some(&subscription_detail)),
        Some(7)
    );
    assert_eq!(
        status_copy_for_task_type(
            Some(1),
            status_code_for_task_type(Some(1), &task_detail, Some(&subscription_detail)).unwrap(),
            &subscription_detail,
            false,
        )
        .0,
        "Closed"
    );
}

#[test]
fn subscription_failed_status_uses_settlement_facts() {
    let refunded = json(
        r#"{"status":9,"trialType":0,"paymentTokenAmount":"10","paymentTokenSymbol":"USDT"}"#,
    );
    let trial_failure = json(r#"{"status":9,"trialType":1}"#);
    let unverified = json(r#"{"status":9}"#);

    assert_eq!(
        status_copy_for_task_type(Some(1), 9, &refunded, false).0,
        "Refund completed; task closed"
    );
    assert_eq!(
        status_copy_for_task_type(Some(1), 9, &trial_failure, false).0,
        "Paid subscription did not start; task closed"
    );
    assert_eq!(
        status_copy_for_task_type(Some(1), 9, &unverified, false).0,
        "Subscription result needs reconciliation"
    );
}

#[test]
fn subscription_status_fails_closed_when_subscription_detail_is_missing() {
    let stale_task_detail = json(r#"{"jobType":1,"status":1}"#);

    assert_eq!(
        status_code_for_task_type(Some(1), &stale_task_detail, None),
        None
    );
}

#[test]
fn resolve_r1_returns_explicit_id_verbatim() {
    let got = resolve_agent_id_or_error("2118", None, &[]).unwrap();
    assert_eq!(got, "2118");
}

#[test]
fn resolve_r1_trims_explicit_id() {
    let got = resolve_agent_id_or_error("  2118  ", None, &[]).unwrap();
    assert_eq!(got, "2118");
}

#[test]
fn none_and_malformed_recovery_hint_mentions_agent_id() {
    for agents in [vec![], vec![json(r#"{"role":2}"#)]] {
        assert!(matches!(
            classify_identities(&agents),
            Classification::Empty | Classification::MalformedSingle
        ));
        let error = resolve_agent_id_or_error("", None, &agents).unwrap_err();
        assert_eq!(error, IdentityError::Missing);
        assert!(error.message().contains("--agent-id"));
    }
}

#[test]
fn active_task_filter_uses_task_specific_status_sets() {
    for status in [0, 1, 2, 3, 4] {
        assert!(
            is_non_terminal(ActiveTaskKind::OneTime, status),
            "one-time status {status} must stay visible"
        );
    }
    for status in [-1, 0, 1, 3, 4] {
        assert!(
            is_non_terminal(ActiveTaskKind::Subscription, status),
            "subscription status {status} must stay visible"
        );
    }
    assert!(!is_non_terminal(ActiveTaskKind::Subscription, 2));
    for kind in [ActiveTaskKind::OneTime, ActiveTaskKind::Subscription] {
        for status in [5, 6, 7, 8, 9] {
            assert!(!is_non_terminal(kind, status));
        }
    }
}

#[test]
fn ordinary_task_projection_excludes_subscription_rows() {
    assert_eq!(
        ordinary_task_kind(&json(r#"{"jobType":0}"#)),
        Some(ActiveTaskKind::OneTime)
    );
    assert_eq!(ordinary_task_kind(&json(r#"{"jobType":1}"#)), None);
    assert_eq!(ordinary_task_kind(&json(r#"{"jobType":"1"}"#)), None);
    assert_eq!(
        ordinary_task_kind(&json(r#"{"status":1}"#)),
        Some(ActiveTaskKind::OneTime)
    );
    assert_eq!(ordinary_task_kind(&json(r#"{"jobType":99}"#)), None);
}

#[test]
fn active_task_rows_distinguish_one_time_and_subscription_statuses() {
    let one_time = active_task_row(
        &json(
            r#"{"jobId":"task-1","status":1,"title":"One-time analysis","buyerAgentId":"buyer-1","providerAgentId":"asp-1"}"#,
        ),
        ActiveTaskKind::OneTime,
        "asp-1",
        2,
        false,
        false,
    )
    .unwrap();
    let subscription = active_task_row(
        &json(
            r#"{"jobId":"subscription-1","subStatus":"1","serviceName":"Daily signals","buyerAgentId":"buyer-1","providerAgentId":"asp-1"}"#,
        ),
        ActiveTaskKind::Subscription,
        "asp-1",
        2,
        false,
        false,
    )
    .unwrap();

    assert_eq!(one_time.task_type, "one_time");
    assert_eq!(one_time.status_label, "In progress");
    assert_eq!(subscription.task_type, "subscription");
    assert_eq!(subscription.status_label, "Active");
}

#[test]
fn active_task_rows_filter_terminal_subscriptions() {
    let closed = json(r#"{"jobId":"subscription-1","status":7}"#);
    assert!(active_task_row(
        &closed,
        ActiveTaskKind::Subscription,
        "buyer-1",
        1,
        false,
        false
    )
    .is_none());
    assert!(active_task_row(
        &closed,
        ActiveTaskKind::Subscription,
        "buyer-1",
        1,
        true,
        false
    )
    .is_some());
}

#[test]
fn subscription_row_wins_when_task_projection_has_the_same_job_id() {
    let mut rows = Vec::new();
    let mut seen = Vec::new();
    let subscription = active_task_row(
        &json(r#"{"jobId":"same-job","status":7}"#),
        ActiveTaskKind::Subscription,
        "buyer-1",
        1,
        true,
        false,
    )
    .unwrap();
    let stale_task = active_task_row(
        &json(r#"{"jobId":"same-job","status":1}"#),
        ActiveTaskKind::OneTime,
        "buyer-1",
        1,
        true,
        false,
    )
    .unwrap();

    push_unique_active_task(&mut rows, &mut seen, subscription);
    push_unique_active_task(&mut rows, &mut seen, stale_task);

    assert_eq!(rows.len(), 1);
    assert_eq!(rows[0].task_type, "subscription");
    assert_eq!(rows[0].status_label, "Closed");
}
