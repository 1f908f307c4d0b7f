use task_lifecycle::events::{events_from_history, HistoryMessage, LifecycleEvent};
use task_lifecycle::json::Json;
use task_lifecycle::phase::{LifecycleConfidence, LifecyclePhase};
use task_lifecycle::subscription::{
    charge_words, local_moments, subscription_milestones, subscription_moments,
    subscription_next_action, subscription_responsible_party, subscription_status_label,
    ChargeWords, SubscriptionMoments,
};
use task_lifecycle::subscription_snapshot::{
    authoritative_refund_settlement_confirmed, build_subscription_display,
    build_subscription_snapshot_at, subscription_authoritative_status,
    subscription_detail_matches_job, subscription_status_copy, subscription_status_copy_at,
};

fn json(text: &str) -> Json {
    Json::parse(text).unwrap()
}

fn event(id: &str, name: &str, rest: &str) -> HistoryMessage {
    HistoryMessage {
        id: id.to_string(),
        sender_inbox_id: None,
        content: json(&format!(
            r#"{{"source":"system","event":"{name}","jobId":"j"{rest}}}"#
        )),
        sent_at: None,
        delivery_status: None,
    }
}

fn events(rows: &[HistoryMessage]) -> Vec<LifecycleEvent> {
    events_from_history("j", rows)
}

fn moments() -> SubscriptionMoments {
    SubscriptionMoments {
        accept_deadline: Some("A".to_string()),
        trial_end: Some("B".to_string()),
        first_charge: Some("C".to_string()),
        last_cancel: Some("D".to_string()),
        next_charge: Some("E".to_string()),
        period_end: Some("F".to_string()),
        grace_end: Some("G".to_string()),
        response_deadline: Some("H".to_string()),
        voting_deadline: None,
    }
}

fn words() -> ChargeWords {
    ChargeWords {
        amount: "5".to_string(),
        token: "USDT".to_string(),
        reason: "no funds".to_string(),
        advice: "top up".to_string(),
    }
}

#[test]
fn next_actions_are_the_approved_sentences() {
    let action = |template: u8| {
        subscription_next_action(
            Some(template),
            LifecyclePhase::Unknown,
            None,
            &words(),
            &moments(),
        )
    };
    assert_eq!(
        action(2),
        "Wait for the ASP to accept before A. If the ASP does not respond before the deadline, the task will close automatically and any paid service fee will be returned to the wallet."
    );
    assert_eq!(
        action(3),
        "The free trial ends at B. The system will charge 5 USDT at C and convert it to a paid subscription. Cancel before D if you do not want to continue."
    );
    assert_eq!(
        action(4),
        "The system will automatically charge 5 USDT at E. Keep enough wallet balance and allowance available."
    );
    assert_eq!(
        action(5),
        "The current service remains available until F and will then end automatically. Enable auto-renewal before expiry to continue."
    );
    assert_eq!(action(6), action(8));
    assert_eq!(
        action(9),
        "Charge failure reason: no funds. The system will not retry automatically. To continue, top up, then subscribe again."
    );
    assert_eq!(
        action(11),
        "The grace period ends at G. Before then, top up. Service remains active during the grace period and the system will keep retrying; if payment is still incomplete at expiry, the subscription will end automatically. Charge failure reason: no funds."
    );
    assert_eq!(
        action(14),
        "The ASP must approve the refund or request an evaluation before H. If no action is taken by the deadline, the system will approve the refund automatically."
    );
    assert_eq!(
        action(15),
        "No action is required. The current-period fee of 5 USDT will be returned automatically to the wallet."
    );
    assert_eq!(
        action(16),
        "Evaluators must finish voting before an unavailable time. The platform will handle the current-period fee according to the result."
    );
    assert_eq!(action(99), "Try the subscription query again later");
    assert_eq!(
        subscription_next_action(
            None,
            LifecyclePhase::ActiveSubscription,
            Some(0),
            &words(),
            &moments()
        ),
        "Enable auto-renewal before the current period ends to continue the service"
    );
}

#[test]
fn charges_are_described_from_the_detail_then_the_events() {
    let history = events(&[
        event("1", "sub_renew", r#","reason":"old","timestamp":1"#),
        event("2", "sub_renew", r#","reason":"new","timestamp":2"#),
        event("3", "sub_renew", r#","timestamp":3"#),
    ]);
    let bare = charge_words(&json("{}"), &history);
    assert_eq!(bare.amount, "an unavailable amount");
    assert_eq!(bare.token, "an unavailable token");
    assert_eq!(bare.reason, "new");
    assert_eq!(bare.advice, "fund the wallet and refresh any required allowance");
    let full = charge_words(
        &json(r#"{"tokenAmount":3,"refundAmount":4,"tokenSymbol":"X","failReasopn":"typo","recommendedAction":"wait"}"#),
        &history,
    );
    assert_eq!(full.amount, "3");
    assert_eq!(full.token, "X");
    assert_eq!(full.reason, "typo");
    assert_eq!(full.advice, "wait");
}

#[test]
fn milestones_come_from_the_detail_then_from_events() {
    let history = events(&[
        event("1", "sub_open", r#","timestamp":1"#),
        event("2", "sub_created", r#","timestamp":2"#),
        event("3", "sub_renew", r#","timestamp":3"#),
        event("4", "sub_renew", r#","timestamp":4"#),
        event("5", "sub_reject_refund_notify", r#","timestamp":5"#),
    ]);
    let milestones = subscription_milestones(&json(r#"{"trailEndTime":9,"closeTime":"8"}"#), &history);
    assert_eq!(milestones.created_at.as_deref(), Some("1"));
    assert_eq!(milestones.accepted_at.as_deref(), Some("2"));
    assert_eq!(milestones.last_renewed_at.as_deref(), Some("4"));
    assert_eq!(milestones.trial_ends_at.as_deref(), Some("9"));
    assert_eq!(milestones.closed_at.as_deref(), Some("8"));
    assert_eq!(milestones.refunded_at, None);
}

#[test]
fn the_time_of_an_undated_first_event_is_unknown() {
    let mut history = events(&[event("2", "sub_created", r#","timestamp":"2""#)]);
    let mut undated = events(&[event("1", "sub_open", "")]);
    undated.append(&mut history);
    let milestones = subscription_milestones(&json("{}"), &undated);
    assert_eq!(milestones.created_at, None);
}

#[test]
fn moments_fall_back_to_the_end_of_the_trial() {
    let detail = json(r#"{"trialEndTime":"10","nextChargeTime":"20","reviewDeadlineAt":"30"}"#);
    let milestones = subscription_milestones(&detail, &[]);
    let found = subscription_moments(&detail, &milestones);
    assert_eq!(found.first_charge.as_deref(), Some("20"));
    assert_eq!(found.last_cancel.as_deref(), Some("10"));
    assert_eq!(found.next_charge.as_deref(), Some("20"));
    assert_eq!(found.response_deadline.as_deref(), Some("30"));
    assert_eq!(found.voting_deadline.as_deref(), Some("30"));
    let local = local_moments(&found);
    assert!(local.trial_end.is_some_and(|text| text.starts_with("19")));
    assert_eq!(local.grace_end, None);
}

#[test]
fn a_settlement_needs_a_failed_paid_subscription() {
    let settled = |detail: &str, status, trial| {
        authoritative_refund_settlement_confirmed(&json(detail), status, trial)
    };
    let paid = r#"{"paymentTokenAmount":" 0.01 ","paymentTokenSymbol":"USDT"}"#;
    assert!(settled(paid, Some(9), Some(0)));
    assert!(!settled(paid, Some(8), Some(0)));
    assert!(!settled(paid, Some(9), Some(1)));
    assert!(!settled(paid, Some(9), None));
    assert!(!settled(paid, None, Some(0)));
    for amount in ["0", "0.00", "1.2.3", "ten", "-5", "."] {
        let detail = format!(r#"{{"paymentTokenAmount":"{amount}","paymentTokenSymbol":"USDT"}}"#);
        assert!(!settled(&detail, Some(9), Some(0)), "{amount}");
    }
    assert!(!settled(r#"{"paymentTokenAmount":"5"}"#, Some(9), Some(0)));
}

#[test]
fn grace_lies_between_the_period_and_its_end() {
    let detail = json(r#"{"jobId":"j","status":1,"trialType":0,"autoRenew":"1","subEndTime":100,"subBufferEndTime":200}"#);
    let at = |now| {
        build_subscription_snapshot_at("j", &detail, Vec::new(), true, false, now, &moments(), "S".to_string())
    };
    assert_eq!(at(99).phase, LifecyclePhase::ActiveSubscription);
    assert_eq!(at(100).phase, LifecyclePhase::RenewalGracePeriod);
    assert_eq!(at(199).phase, LifecyclePhase::RenewalGracePeriod);
    assert_eq!(at(200).phase, LifecyclePhase::ActiveSubscription);
    assert_eq!(at(150).responsible_party, "user");
    assert_eq!(at(150).synced_at, "S");
}

#[test]
fn events_do_not_prove_refunds() {
    let history = events(&[event("1", "sub_reject_refund_notify", r#","timestamp":5"#)]);
    let snapshot = build_subscription_snapshot_at(
        "j",
        &json(r#"{"status":9,"trialType":0}"#),
        history,
        true,
        false,
        0,
        &moments(),
        "S".to_string(),
    );
    assert_eq!(snapshot.phase, LifecyclePhase::Failed);
    assert_eq!(snapshot.confidence, LifecycleConfidence::Confirmed);
    let trial = build_subscription_snapshot_at(
        "j",
        &json(r#"{"status":9,"trialType":1,"refundedAt":5,"refundTxHash":"h"}"#),
        Vec::new(),
        true,
        false,
        0,
        &moments(),
        "S".to_string(),
    );
    assert_eq!(trial.phase, LifecyclePhase::Failed);
    assert_eq!(trial.status_label, "Paid subscription did not start; task closed");
}

#[test]
fn a_missing_status_is_unknown_whatever_the_events_say() {
    let history = events(&[event("1", "sub_close_notify", "")]);
    let snapshot = build_subscription_snapshot_at(
        "j",
        &json(r#"{"jobId":"other","periodIndex":"2","refundAmount":1,"tokenSymbol":"X"}"#),
        history,
        false,
        true,
        0,
        &moments(),
        "S".to_string(),
    );
    assert_eq!(snapshot.job_id, "j");
    assert_eq!(snapshot.phase, LifecyclePhase::Unknown);
    assert_eq!(snapshot.confidence, LifecycleConfidence::Unknown);
    assert_eq!(snapshot.authoritative_status, "unavailable");
    assert_eq!(snapshot.status_label, "Status unavailable");
    assert_eq!(snapshot.period_index, Some(2));
    assert_eq!(snapshot.refund_amount.as_deref(), Some("1"));
    assert_eq!(snapshot.refund_token_symbol.as_deref(), Some("X"));
    assert_eq!(snapshot.display.progress_step, 1);
    assert_eq!(snapshot.display.template_id, None);
}

#[test]
fn short_copy_agrees_with_the_snapshot() {
    for (detail, closed) in [
        (r#"{"status":8}"#, false),
        (r#"{"status":8}"#, true),
        (r#"{"status":0}"#, true),
        (r#"{"status":9,"refundTime":1,"refundTransactionHash":"h"}"#, false),
        (r#"{"status":7,"acceptTime":1,"graceEndsAt":5}"#, false),
        (r#"{}"#, false),
    ] {
        let detail = json(detail);
        let (label, summary) = subscription_status_copy_at(&detail, closed, 10);
        let snapshot = build_subscription_snapshot_at(
            "j",
            &detail,
            Vec::new(),
            true,
            closed,
            10,
            &moments(),
            "S".to_string(),
        );
        assert_eq!(label, snapshot.status_label);
        assert_eq!(summary, snapshot.display.current_summary);
    }
}

#[test]
fn short_copy_without_clock_readings_is_the_same_at_any_time() {
    for (detail, closed) in [(r#"{"status":8}"#, true), (r#"{"status":4}"#, false), ("{}", false)] {
        let detail = json(detail);
        assert_eq!(
            subscription_status_copy(&detail, closed),
            subscription_status_copy_at(&detail, closed, 10)
        );
    }
}

#[test]
fn displays_count_their_stages() {
    for template in (1..=18).map(Some).chain([None, Some(0), Some(200)]) {
        let display =
            build_subscription_display(LifecyclePhase::Unknown, template, "s", "h", "n");
        assert_eq!(display.timeline.len(), display.progress_total as usize);
        assert!(1 <= display.progress_step && display.progress_step <= display.progress_total);
        assert_eq!(display.choices.is_empty(), template != Some(2));
        let rating = format!("To rate this {}, reply \"Rate job\".", "task");
        assert_eq!(
            display.notice,
            match template {
                Some(3 | 4 | 5 | 13 | 17 | 18) => Some(rating),
                _ => None,
            }
        );
    }
    let evaluated =
        build_subscription_display(LifecyclePhase::Disputed, Some(16), "s", "h", "n");
    assert_eq!(evaluated.timeline[3].title, "Refund request under evaluation");
    assert_eq!(evaluated.timeline[3].marker, "▶");
    assert_eq!(evaluated.timeline[4].marker, "○");
    assert_eq!(evaluated.template_id.as_deref(), Some("Sub-Status-16"));
}

#[test]
fn labels_and_parties_without_a_copy_follow_the_phase() {
    assert_eq!(
        subscription_status_label(None, LifecyclePhase::ActiveSubscription, Some(0)),
        "Active until the current period ends"
    );
    assert_eq!(
        subscription_status_label(None, LifecyclePhase::ActiveSubscription, None),
        "Subscription active"
    );
    assert_eq!(
        subscription_status_label(Some(14), LifecyclePhase::Unknown, None),
        "Subscription ended; refund request pending"
    );
    assert_eq!(subscription_responsible_party(Some(16), LifecyclePhase::Disputed), "evaluator");
    assert_eq!(subscription_responsible_party(Some(14), LifecyclePhase::Disputed), "asp");
    assert_eq!(subscription_responsible_party(Some(13), LifecyclePhase::Disputed), "none");
    assert_eq!(subscription_responsible_party(None, LifecyclePhase::Disputed), "official");
    assert_eq!(subscription_responsible_party(Some(19), LifecyclePhase::FreeTrial), "asp");
}

#[test]
fn subscription_codes_have_keys() {
    assert_eq!(subscription_authoritative_status(-1), "init");
    assert_eq!(subscription_authoritative_status(7), "closed");
    assert_eq!(subscription_authoritative_status(2), "unknown_2");
    assert_eq!(subscription_authoritative_status(-4), "unknown_-4");
    assert!(subscription_detail_matches_job(&json(r#"{"jobId":5}"#), "5"));
    assert!(!subscription_detail_matches_job(&json(r#"{"subId":"5"}"#), "5"));
}
