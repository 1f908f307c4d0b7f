use task_lifecycle::active_tasks::{
    active_task_row_at, add_subscription_rows, add_task_rows, agent_queries, agents_of_role,
    is_shortenable, is_showable, list_items, listed_job_id, short_job_id, ActiveTaskKind,
    ActiveTaskTable, UnknownRole,
};
use task_lifecycle::history::CommandRow;
use task_lifecycle::identity::{
    resolve_agent_id, resolve_agent_id_or_error, resolve_by_role, resolve_explicit, IdentityError,
    ResolveStep,
};
use task_lifecycle::json::Json;
use task_lifecycle::lifecycle::{
    begin_lifecycle, with_deliverable, with_local, with_receipt, with_session, with_subscription,
    with_task, Gathered, LifecycleStep,
};
use task_lifecycle::phase::LifecyclePhase;
use task_lifecycle::query::{
    parse_role_arg, role_name, status_copy_for_task_type_at, subscription_status_description,
    subscription_status_label, subscription_status_name,
};
use task_lifecycle::snapshot::LifecycleSnapshot;
use task_lifecycle::status_query::{
    begin_status, status_with_dispute, status_with_receipt, status_with_subscription,
    status_with_supplement, status_with_task, DisputeFacts, StatusQuery, StatusStep,
};
use task_lifecycle::task_list::{list_route, task_list_lines, ListRoute};

fn json(text: &str) -> Json {
    Json::parse(text).unwrap()
}

#[test]
fn roles_are_named_and_read_back() {
    for role in 1..=3 {
        assert_eq!(parse_role_arg(role_name(role)), Some(role));
    }
    assert_eq!(parse_role_arg("  ASP\n"), Some(2));
    assert_eq!(parse_role_arg("unknown"), None);
    assert_eq!(parse_role_arg(""), None);
}

#[test]
fn identities_are_resolved_in_order() {
    let one = [json(r#"{"agentId":" 7 ","role":2}"#)];
    assert_eq!(
        resolve_agent_id_or_error(" 5 ", Some("6"), &one),
        Ok("5".to_string())
    );
    assert_eq!(
        resolve_agent_id_or_error(" ", Some(" 6 "), &one),
        Ok("6".to_string())
    );
    assert_eq!(
        resolve_agent_id_or_error("", Some("  "), &one),
        Ok("7".to_string())
    );
    let two = [
        json(r#"{"agentId":"7","role":2}"#),
        json(r#"{"agentId":"","role":1}"#),
        json(r#"{"agentId":"8","role":"user"}"#),
    ];
    let error = resolve_agent_id_or_error("", None, &two).unwrap_err();
    assert_eq!(
        error.message(),
        "This account has 2 identities: [agentId=7 role=asp], [agentId=8 role=unknown]. Pass --agent-id to choose the identity to query."
    );
    assert!(matches!(error, IdentityError::Ambiguous(_)));
    assert_eq!(
        IdentityError::Missing.message(),
        "no agent identity found on this account. Register an identity (route to okx-ai) or pass --agent-id <id> to choose one."
    );
    assert_eq!(resolve_explicit(" "), ResolveStep::LookUpRole);
    assert_eq!(resolve_explicit("a"), ResolveStep::Resolved("a".to_string()));
    assert_eq!(resolve_by_role(None), ResolveStep::ListIdentities);
    assert_eq!(resolve_agent_id(" a", Some("b")), " a");
    assert_eq!(resolve_agent_id("", Some(" b")), " b");
    assert_eq!(resolve_agent_id("", None), "");
}

#[test]
fn job_ids_are_shortened_by_bytes() {
    assert_eq!(short_job_id("12345678901"), "12345678901");
    assert_eq!(short_job_id("0xabcdef12345678"), "0xabcd…5678");
    assert_eq!(short_job_id("123456éé7890"), "123456…7890");
    assert!(is_shortenable("ééé"));
    assert!(!is_shortenable("12345é789012"));
    assert!(!is_shortenable("12345678é890"));
}

#[test]
fn rows_state_the_other_party() {
    let task = json(
        r#"{"jobId":"0xabcdef12345678","status":"2","jobName":"n","title":5,"aspAgentId":"9","userAgentId":"3","tokenAmount":"1","paymentTokenAmount":"2","tokenSymbol":"USDT"}"#,
    );
    let row = active_task_row_at(&task, ActiveTaskKind::OneTime, "3", 1, false, false, 0).unwrap();
    assert_eq!(row.short_job_id, "0xabcd…5678");
    assert_eq!(row.status, "submitted");
    assert_eq!(row.status_code, 2);
    assert_eq!(row.title, "n");
    assert_eq!(row.token_amount, "2");
    assert_eq!(row.token_symbol, "USDT");
    assert_eq!(row.my_role, "user");
    assert_eq!(row.counterparty_agent_id.as_deref(), Some("9"));
    assert_eq!(row.counterparty_role.as_deref(), Some("asp"));
    let row = active_task_row_at(&task, ActiveTaskKind::OneTime, "3", 2, false, false, 0).unwrap();
    assert_eq!(row.counterparty_agent_id.as_deref(), Some("3"));
    let row = active_task_row_at(&task, ActiveTaskKind::OneTime, "3", 3, false, false, 0).unwrap();
    assert_eq!(row.counterparty_agent_id, None);
    assert_eq!(row.counterparty_role, None);
    let undesignated = json(r#"{"subId":"s","status":0}"#);
    let row = active_task_row_at(&undesignated, ActiveTaskKind::Subscription, "3", 1, false, false, 0)
        .unwrap();
    assert_eq!(row.job_id, "s");
    assert_eq!(row.counterparty_agent_id, None);
    assert_eq!(row.counterparty_role.as_deref(), Some("asp"));
    let nameless = json(r#"{"jobId":"","subId":"s","status":0}"#);
    assert_eq!(listed_job_id(&nameless), "");
    assert!(active_task_row_at(&nameless, ActiveTaskKind::OneTime, "3", 1, false, false, 0).is_none());
    let odd = json(r#"{"jobId":"12345é789012","status":0}"#);
    assert!(!is_showable(&odd, ActiveTaskKind::OneTime, false));
    assert!(is_showable(&json(r#"{"jobId":"12345é789012","status":7}"#), ActiveTaskKind::OneTime, false));
}

#[test]
fn subscription_copy_of_ambiguous_codes_follows_the_detail() {
    let ended = json(r#"{"status":9,"subBufferEndTime":100}"#);
    assert_eq!(
        status_copy_for_task_type_at(Some(1), 9, &ended, false, 100).0,
        "Payment was not completed during the grace period; subscription ended"
    );
    assert_eq!(
        status_copy_for_task_type_at(Some(1), 9, &ended, false, 99).0,
        "Subscription result needs reconciliation"
    );
    let expired = json(r#"{"status":8}"#);
    assert_eq!(
        status_copy_for_task_type_at(Some(1), 8, &expired, true, 0),
        ("User closed the task".to_string(), "User closed the task".to_string())
    );
    assert_eq!(subscription_status_name(6), "completed");
    assert_eq!(subscription_status_label(3), "Awaiting ASP decision");
    assert_eq!(subscription_status_description(2), "The subscription status is currently unavailable.");
}

#[test]
fn the_first_row_of_an_agent_and_job_stays() {
    let mut table = ActiveTaskTable::new();
    let subscriptions = list_items(&json(
        r#"{"list":[{"jobId":"a","status":1},{"jobId":"b","status":7},{"jobId":"a","status":3}]}"#,
    ));
    add_subscription_rows(&mut table, &subscriptions, &[false, false, false], "u", 1, false);
    let tasks = list_items(&json(
        r#"[{"jobId":"a","status":1},{"jobId":"c","status":1},{"jobId":"d","status":1,"jobType":1},{"jobId":"b","status":0}]"#,
    ));
    add_task_rows(&mut table, &tasks, "u", 1, false);
    add_task_rows(&mut table, &tasks, "v", 2, false);
    let keys: Vec<(&str, &str, &str)> = table
        .rows
        .iter()
        .map(|row| (row.my_agent_id.as_str(), row.job_id.as_str(), row.task_type.as_str()))
        .collect();
    assert_eq!(
        keys,
        [
            ("u", "a", "subscription"),
            ("u", "c", "one_time"),
            ("u", "b", "one_time"),
            ("v", "a", "one_time"),
            ("v", "c", "one_time"),
            ("v", "b", "one_time"),
        ]
    );
    assert!(list_items(&json("{}")).is_empty());
}

#[test]
fn agents_are_filtered_by_role_and_asked_for_their_registries() {
    let agents = || {
        vec![
            json(r#"{"agentId":"1","role":1}"#),
            json(r#"{"agentId":"2","role":2}"#),
            json(r#"{"agentId":"3","role":"2"}"#),
        ]
    };
    assert_eq!(agents_of_role(agents(), None).unwrap().len(), 3);
    let asps = agents_of_role(agents(), Some(" ASP ")).unwrap();
    assert_eq!(asps, vec![json(r#"{"agentId":"2","role":2}"#)]);
    assert_eq!(
        agents_of_role(agents(), Some("boss")),
        Err(UnknownRole { raw: "boss".to_string() })
    );
    let queries = agent_queries(&agents()[0], true).unwrap();
    assert_eq!(
        queries.subscription_paths,
        [
            "/priapi/v1/aieco/task/subscribe/my?page=1&pageSize=100&statusType=1",
            "/priapi/v1/aieco/task/subscribe/my?page=1&pageSize=100&statusType=2",
        ]
    );
    assert_eq!(queries.task_path, "/priapi/v1/aieco/task/my?page=1&page_size=100");
    assert_eq!(agent_queries(&agents()[1], false).unwrap().subscription_paths.len(), 1);
    assert!(agent_queries(&agents()[2], false).unwrap().subscription_paths.is_empty());
    assert_eq!(agent_queries(&json(r#"{"agentId":"","role":1}"#), true), None);
    assert_eq!(agent_queries(&json(r#"{"agentId":5,"role":1}"#), true), None);
}

#[test]
fn task_lists_are_routed_and_printed() {
    assert_eq!(list_route(Some("disputed"), 1, 20), ListRoute::Arbitration);
    assert_eq!(
        list_route(Some("open"), 2, 20),
        ListRoute::Tasks("/priapi/v1/aieco/task/my?page=2&page_size=20&status=open".to_string())
    );
    assert_eq!(
        list_route(None, 0, 4_294_967_295),
        ListRoute::Tasks("/priapi/v1/aieco/task/my?page=0&page_size=4294967295".to_string())
    );
    assert_eq!(
        task_list_lines(
            &json(
                r#"{"total":7,"list":[{"status":1,"jobId":"j","tokenAmount":"3","tokenSymbol":"USDT","title":"t"},{"status":"1"}]}"#
            ),
            2
        ),
        [
            "Task list (7 total, page 2):",
            "  [In progress] j — 3 USDT",
            "       t",
            "  [Status unavailable] ? — ? ?",
            "       ?",
        ]
    );
    assert_eq!(
        task_list_lines(&json("{\"total\":-1}"), 1),
        ["Task list (0 total, page 1):"]
    );
}

fn query_of(step: StatusStep) -> StatusQuery {
    match step {
        StatusStep::FetchTask(query)
        | StatusStep::FetchSubscription(query)
        | StatusStep::FetchDispute(query)
        | StatusStep::FetchSupplement(query)
        | StatusStep::CheckReceipt(query) => query,
        other => panic!("no request: {other:?}"),
    }
}

#[test]
fn a_one_time_task_is_reported() {
    let begun = query_of(begin_status("j", "a"));
    let step = status_with_task(
        begun,
        Some(json(
            r#"{"jobType":0,"status":1,"title":"T","tokenAmount":"5","tokenSymbol":"USDT","buyerAgentId":"b","providerAgentId":"p"}"#,
        )),
    );
    assert_eq!(
        step,
        StatusStep::Report(
            [
                "Task type: one_time",
                "Task status: In progress",
                "Status detail: The ASP accepted the task and is working on it.",
                "  jobId:    j",
                "  title:    T",
                "  description: ?",
                "  budget:   5 USDT",
                "  user:    b",
                "  asp: p",
            ]
            .iter()
            .map(|line| line.to_string())
            .collect()
        )
    );
}

#[test]
fn disputes_are_fetched_where_the_status_calls_for_them() {
    let task = |status: i64| {
        status_with_task(
            query_of(begin_status("j", "a")),
            Some(json(&format!(r#"{{"jobType":0,"status":{status}}}"#))),
        )
    };
    assert!(matches!(task(4), StatusStep::FetchDispute(_)));
    assert_eq!(
        status_with_dispute(query_of(task(4)), None),
        StatusStep::FailDispute
    );
    assert!(matches!(
        status_with_dispute(query_of(task(4)), Some(DisputeFacts { job_type: Some(0) })),
        StatusStep::ShowDispute(_)
    ));
    assert!(matches!(task(9), StatusStep::FetchDispute(_)));
    assert!(matches!(
        status_with_dispute(query_of(task(9)), None),
        StatusStep::Report(_)
    ));
    assert!(matches!(task(7), StatusStep::Report(_)));
}

#[test]
fn a_missing_task_may_still_have_a_dispute() {
    let missing = || query_of(status_with_task(query_of(begin_status("j", "a")), None));
    assert_eq!(status_with_dispute(missing(), None), StatusStep::FailTask);
    assert_eq!(
        status_with_dispute(missing(), Some(DisputeFacts { job_type: Some(0) })),
        StatusStep::ShowDispute(json("{}"))
    );
    assert!(matches!(
        status_with_dispute(missing(), Some(DisputeFacts { job_type: Some(1) })),
        StatusStep::FetchSupplement(_)
    ));
    assert_eq!(
        status_with_supplement(Some(json("{\"a\":1}"))),
        StatusStep::ShowDispute(json("{\"a\":1}"))
    );
    assert_eq!(status_with_supplement(None), StatusStep::ShowDispute(json("{}")));
}

#[test]
fn a_subscription_is_reported_by_its_own_detail() {
    let typed = || {
        query_of(status_with_task(
            query_of(begin_status("j", "a")),
            Some(json(r#"{"jobType":1,"status":1}"#)),
        ))
    };
    let known = query_of(status_with_subscription(typed(), Some(json(r#"{"subStatus":8}"#))));
    match status_with_receipt(&known, true) {
        StatusStep::Report(lines) => {
            assert_eq!(lines[1], "Task status: User closed the task");
        }
        other => panic!("no report: {other:?}"),
    }
    let unknown = query_of(status_with_subscription(typed(), None));
    match status_with_receipt(&unknown, true) {
        StatusStep::Report(lines) => {
            assert_eq!(lines[0], "Task type: subscription");
            assert_eq!(lines[1], "Task status: Status unavailable");
        }
        other => panic!("no report: {other:?}"),
    }
}

fn gathered(step: LifecycleStep) -> Gathered {
    match step {
        LifecycleStep::FetchTask(g)
        | LifecycleStep::ReadLocal(g)
        | LifecycleStep::ReadSession(g, _)
        | LifecycleStep::FetchSubscription(g)
        | LifecycleStep::CheckReceipt(g, _)
        | LifecycleStep::CheckDeliverable(g) => g,
        other => panic!("no request: {other:?}"),
    }
}

fn shown(step: LifecycleStep) -> LifecycleSnapshot {
    match step {
        LifecycleStep::ShowTask(snapshot) => snapshot,
        other => panic!("no task: {other:?}"),
    }
}

fn begun() -> Gathered {
    gathered(begin_lifecycle("j", &[json(r#"{"agentId":"u","role":1}"#)], ""))
}

fn local_rows() -> Vec<CommandRow> {
    vec![CommandRow {
        id: "r".to_string(),
        command_json: r#"{"agentId":"u","content":{"source":"system","event":"job_accepted","jobId":"j","jobType":0,"timestamp":20}}"#.to_string(),
        created_at_ms: None,
    }]
}

#[test]
fn nothing_is_read_without_a_confirmed_identity() {
    let snapshot = shown(begin_lifecycle("j", &[json(r#"{"agentId":"a","role":2}"#)], "a"));
    assert_eq!(
        snapshot.display.notice.as_deref(),
        Some("Current wallet identity could not be confirmed, so local task history was not read.")
    );
    assert_eq!(begun().agent_id, "u");
}

#[test]
fn a_one_time_task_goes_through_local_and_session_history() {
    let detail = json(r#"{"jobType":0,"status":1,"providerAgentId":"p"}"#);
    let step = with_local(gathered(with_task(begun(), Some(detail))), Some(&local_rows()));
    let step = match step {
        LifecycleStep::ReadSession(g, provider) => {
            assert_eq!(provider, "p");
            with_session(
                g,
                Some(r#"[{"id":"s","content":{"source":"system","event":"job_created","jobId":"j","timestamp":10}}]"#),
            )
        }
        other => panic!("no session: {other:?}"),
    };
    let step = match step {
        LifecycleStep::CheckDeliverable(g) => with_deliverable(g, true),
        other => panic!("no deliverable: {other:?}"),
    };
    let snapshot = shown(step);
    assert_eq!(snapshot.phase, LifecyclePhase::AspExecuting);
    assert_eq!(snapshot.history_event_count, 2);
    assert_eq!(snapshot.milestones.created_at.as_deref(), Some("10"));
    assert_eq!(snapshot.milestones.accepted_at.as_deref(), Some("20"));
    assert!(snapshot.history_read_succeeded);
    assert!(snapshot.display.deliverable_available);
}

#[test]
fn a_session_that_is_no_json_is_passed_over() {
    let detail = json(r#"{"jobType":0,"status":1,"providerAgentId":"p"}"#);
    let g = gathered(with_local(gathered(with_task(begun(), Some(detail))), None));
    assert!(!g.history_read_succeeded);
    let g = gathered(with_session(g, Some("oops")));
    assert!(!g.history_read_succeeded);
}

#[test]
fn a_missing_task_falls_back_to_the_local_record() {
    let g = gathered(with_local(gathered(with_task(begun(), None)), Some(&local_rows())));
    let step = with_subscription(g, Some(json(r#"{"jobId":"other"}"#)));
    let snapshot = match step {
        LifecycleStep::CheckDeliverable(g) => shown(with_deliverable(g, false)),
        other => panic!("no deliverable: {other:?}"),
    };
    assert_eq!(snapshot.status_source, "local_official_event");
    assert_eq!(
        snapshot.display.notice.as_deref(),
        Some("Latest task details are unavailable; showing the latest verified local task record.")
    );
    let g = gathered(with_local(gathered(with_task(begun(), None)), None));
    let snapshot = shown(with_deliverable(gathered(with_subscription(g, None)), false));
    assert_eq!(
        snapshot.display.notice.as_deref(),
        Some("Task details and verified local history are unavailable. Try again later.")
    );
}

#[test]
fn a_confirmed_subscription_needs_its_own_detail() {
    let confirmed = || {
        let detail = json(r#"{"jobType":"subscription","status":1,"aspAgentId":"p"}"#);
        let g = gathered(with_local(gathered(with_task(begun(), Some(detail))), None));
        match with_session(g, None) {
            LifecycleStep::FetchSubscription(g) => g,
            other => panic!("no subscription: {other:?}"),
        }
    };
    let snapshot = shown(with_subscription(confirmed(), None));
    assert_eq!(snapshot.task_type, "subscription");
    assert_eq!(snapshot.asp_agent_id.as_deref(), Some("p"));
    match with_subscription(confirmed(), Some(json(r#"{"jobId":"j","status":0}"#))) {
        LifecycleStep::CheckReceipt(g, detail) => match with_receipt(g, &detail, true) {
            LifecycleStep::ShowSubscription(snapshot) => {
                assert_eq!(snapshot.phase, LifecyclePhase::WaitingForAsp);
                assert_eq!(snapshot.status_label, "Subscription closure submitted");
                assert!(snapshot.display.choices.is_empty());
            }
            other => panic!("no subscription: {other:?}"),
        },
        other => panic!("no receipt: {other:?}"),
    }
}

#[test]
fn tasks_of_other_types_or_without_a_status_are_not_shown() {
    let settle = |detail: &str| {
        let g = gathered(with_task(begun(), Some(json(detail))));
        match with_local(g, None) {
            LifecycleStep::FetchSubscription(g) => with_subscription(g, None),
            other => other,
        }
    };
    assert_eq!(shown(settle(r#"{"jobType":5,"status":1}"#)).task_type, "unsupported");
    assert_eq!(shown(settle(r#"{"status":1}"#)).task_type, "unknown");
    let unsettled = shown(settle(r#"{"jobType":0}"#));
    assert_eq!(unsettled.task_type, "one_time");
    assert_eq!(
        unsettled.display.notice.as_deref(),
        Some("The latest task details do not include a usable current status.")
    );
}
