use task_lifecycle::active_listing::{
    active_task_listing, active_task_listing_at, active_task_queries, active_tasks_at,
    are_listable, AgentAnswers,
};
use task_lifecycle::active_tasks::{
    is_shown_task, list_items, ActiveTaskKind, ActiveTaskRow, AgentQueries,
};
use task_lifecycle::json::Json;

fn json(text: &str) -> Json {
    Json::parse(text).unwrap()
}

fn items(text: &str) -> Option<Vec<Json>> {
    Some(list_items(&json(text)))
}

fn agents() -> Vec<Json> {
    vec![
        json(r#"{"agentId":"u","role":1}"#),
        json(r#"{"role":1}"#),
        json(r#"{"agentId":"v","role":2}"#),
        json(r#"{"agentId":"e","role":3}"#),
    ]
}

fn queries(include_terminal: bool) -> Vec<AgentQueries> {
    active_task_queries(&agents(), include_terminal)
}

fn failed(queries: AgentQueries) -> AgentAnswers {
    let paths = queries.subscription_paths.len();
    AgentAnswers {
        queries,
        subscriptions: (0..paths).map(|_| None).collect(),
        submitted: vec![Vec::new(); paths],
        tasks: None,
    }
}

fn keys(rows: &[ActiveTaskRow]) -> Vec<(&str, &str, &str)> {
    rows.iter()
        .map(|row| (row.my_agent_id.as_str(), row.job_id.as_str(), row.task_type.as_str()))
        .collect()
}

#[test]
fn agents_are_asked_in_their_order_and_those_without_an_id_are_passed_over() {
    let asked: Vec<(String, usize)> = queries(true)
        .into_iter()
        .map(|one| (one.agent_id, one.subscription_paths.len()))
        .collect();
    assert_eq!(asked, [("u".to_string(), 2), ("v".to_string(), 2), ("e".to_string(), 0)]);
    assert_eq!(queries(false)[0].subscription_paths.len(), 1);
    assert!(active_task_queries(&[], true).is_empty());
}

fn answers() -> Vec<AgentAnswers> {
    let mut all: Vec<AgentAnswers> = queries(true).into_iter().map(failed).collect();
    all[0].tasks = items(
        r#"[{"jobId":"c","status":7},{"jobId":"a","status":1},{"jobId":"s","status":1,"jobType":1}]"#,
    );
    all[0].subscriptions[0] = items(r#"[{"jobId":"a","status":1},{"status":1}]"#);
    all[0].submitted[0] = vec![false, false];
    all[0].subscriptions[1] = items(r#"[{"jobId":"b","status":8},{"jobId":"a","status":8}]"#);
    all[0].submitted[1] = vec![true, true];
    all[1].subscriptions[1] = items(r#"[{"jobId":"b","status":8}]"#);
    all[1].submitted[1] = vec![false];
    all[2].tasks = items(r#"{"list":[{"jobId":"a","status":0}]}"#);
    all
}

#[test]
fn the_listing_goes_agent_by_agent_with_subscriptions_first() {
    let answers = answers();
    assert!(are_listable(&answers, true));
    let table = active_tasks_at(&answers, true, 10);
    assert_eq!(
        keys(&table.rows),
        [
            ("u", "a", "subscription"),
            ("u", "b", "subscription"),
            ("u", "c", "one_time"),
            ("v", "b", "subscription"),
            ("e", "a", "one_time"),
        ]
    );
    assert_eq!(table.seen, ["u\0a", "u\0b", "u\0c", "v\0b", "e\0a"]);
    assert_eq!(table.rows[0].status_label, "Active");
    assert_eq!(table.rows[1].status_label, "User closed the task");
    assert_eq!(
        table.rows[3].status_label,
        "ASP acceptance deadline passed; task closed automatically"
    );

    let listing = active_task_listing_at(&agents(), &answers, true, 10);
    assert_eq!((listing.total_agents, listing.total_tasks), (4, 5));
    assert_eq!(listing.tasks, table.rows);
    let now = active_task_listing(&agents(), &answers, true);
    assert_eq!(keys(&now.tasks), keys(&table.rows));
    assert_eq!((now.total_agents, now.total_tasks), (4, 5));
}

#[test]
fn later_agents_do_not_change_earlier_rows() {
    let all = answers();
    let whole = active_tasks_at(&all, true, 10);
    let first = active_tasks_at(&all[..1], true, 10);
    assert_eq!(first.rows.len(), 3);
    assert_eq!(whole.rows[..3], first.rows[..]);
}

#[test]
fn failed_requests_leave_out_their_rows_only() {
    let mut all = answers();
    all[0].tasks = None;
    all[0].subscriptions[0] = None;
    all[0].submitted[0] = Vec::new();
    assert_eq!(
        keys(&active_tasks_at(&all, true, 10).rows),
        [
            ("u", "b", "subscription"),
            ("u", "a", "subscription"),
            ("v", "b", "subscription"),
            ("e", "a", "one_time"),
        ]
    );
    let none: Vec<AgentAnswers> = queries(true).into_iter().map(failed).collect();
    let listing = active_task_listing_at(&agents(), &none, true, 10);
    assert_eq!((listing.total_agents, listing.total_tasks), (4, 0));
    assert!(listing.tasks.is_empty());
}

#[test]
fn listings_need_complete_answers_and_job_ids_that_can_be_cut() {
    let mut short = answers();
    short[0].submitted[0].pop();
    assert!(!are_listable(&short, true));
    let mut few = answers();
    few[1].subscriptions.pop();
    assert!(!are_listable(&few, true));
    let mut odd = answers();
    odd[2].tasks = items(r#"[{"jobId":"12345é789012","status":7}]"#);
    assert!(!are_listable(&odd, true));
    let mut open: Vec<AgentAnswers> = queries(false).into_iter().map(failed).collect();
    open[2].tasks = items(r#"[{"jobId":"12345é789012","status":7}]"#);
    assert!(are_listable(&open, false));
    assert!(active_tasks_at(&open, false, 10).rows.is_empty());
}

#[test]
fn closed_tasks_are_shown_where_they_are_asked_for() {
    let closed = json(r#"{"jobId":"b","status":8}"#);
    assert!(is_shown_task(&closed, ActiveTaskKind::Subscription, true));
    assert!(!is_shown_task(&closed, ActiveTaskKind::Subscription, false));
    assert!(!is_shown_task(&json(r#"{"status":1}"#), ActiveTaskKind::OneTime, true));
    assert!(!is_shown_task(&json(r#"{"jobId":"b"}"#), ActiveTaskKind::OneTime, true));
}
