use std::collections::HashMap;
use replicate::error::model_error_message;
use replicate::prediction::{prediction_path, target_of, Target};
use replicate::run::{run_outcome, run_poll, wait_poll, PollDecision, RunError};
use replicate::{APIError, CreatePredictionParams, Prediction, Status, Webhook};

fn job(status: Status, output: Option<serde_json::Value>, error: Option<serde_json::Value>) -> Prediction {
    Prediction {
        id: "job-1".to_string(),
        status,
        model: "owner/name".to_string(),
        version: "v1".to_string(),
        input: HashMap::new(),
        output,
        source: None,
        error,
        logs: None,
        metrics: None,
        webhook: None,
        webhook_events_filter: None,
        urls: None,
        created_at: "now".to_string(),
        started_at: None,
        completed_at: None,
    }
}

#[test]
fn run_returns_output_after_polling() {
    let mut output = serde_json::Map::new();
    output.insert("result".to_string(), serde_json::Value::String("ok".to_string()));
    let output = serde_json::Value::Object(output);
    let mut polls = 0;
    for status in [Status::Starting, Status::Processing] {
        assert_eq!(run_poll(status, 0), PollDecision::Poll { after_ms: 5000 });
        polls += 1;
    }
    assert_eq!(run_poll(Status::Succeeded, 10_000), PollDecision::Finished);
    assert_eq!(polls, 2);
    let r = run_outcome(job(Status::Succeeded, Some(output.clone()), None));
    assert_eq!(r.unwrap(), output);
}

#[test]
fn run_reports_failure_payload() {
    let r = run_outcome(job(Status::Failed, None, Some(serde_json::Value::String("boom".to_string()))));
    match r {
        Err(RunError::Failed { error: Some(e) }) => assert_eq!(e.as_str(), Some("boom")),
        _ => panic!("expected a failed job"),
    }
}

#[test]
fn run_other_outcomes() {
    assert!(matches!(run_outcome(job(Status::Succeeded, None, None)), Err(RunError::NoOutput)));
    assert!(matches!(
        run_outcome(job(Status::Canceled, None, None)),
        Err(RunError::Unexpected { status: Status::Canceled, .. })
    ));
    assert_eq!(run_poll(Status::Processing, 600_001), PollDecision::TimedOut);
    assert_eq!(run_poll(Status::Processing, 600_000), PollDecision::Poll { after_ms: 5000 });
}

#[test]
fn wait_checks_time_before_status() {
    assert_eq!(wait_poll(Status::Succeeded, 10, 1000, 5), PollDecision::TimedOut);
    assert_eq!(wait_poll(Status::Failed, 1, 1000, 5), PollDecision::Finished);
    assert_eq!(wait_poll(Status::Starting, 1, 1000, 5), PollDecision::Poll { after_ms: 1000 });
}

#[test]
fn status_terminal() {
    assert!(!Status::Starting.is_terminated());
    assert!(!Status::Processing.is_terminated());
    assert!(Status::Succeeded.is_terminated());
    assert!(Status::Failed.is_terminated());
    assert!(Status::Canceled.is_terminated());
    assert_eq!(Status::Canceled.to_string(), "canceled");
}

#[test]
fn paths_for_new_jobs() {
    assert_eq!(prediction_path(Some("o/n"), None, None).unwrap(), "/models/o/n/predictions");
    assert_eq!(prediction_path(None, Some("v"), None).unwrap(), "/predictions");
    assert_eq!(prediction_path(None, None, Some("o/d")).unwrap(), "/deployments/o/d/predictions");
    assert!(prediction_path(None, None, None).is_err());
    assert!(prediction_path(Some("a"), Some("b"), None).is_err());
}

#[test]
fn targets_of_identifiers() {
    assert!(matches!(target_of("o/n:v9"), Ok(Target::Version(v)) if v == "v9"));
    assert!(matches!(target_of("o/n"), Ok(Target::Model(m)) if m == "o/n"));
    assert!(target_of("bad").is_err());
}

#[test]
fn params_for_webhook() {
    let w = Webhook { url: "https://hook".to_string(), events: vec!["completed".to_string()] };
    let p = CreatePredictionParams::for_webhook(Some(&w), false);
    assert_eq!(p.webhook.as_deref(), Some("https://hook"));
    assert_eq!(p.webhook_events_filter, Some(vec!["completed".to_string()]));
    assert_eq!(p.stream, Some(false));
    let q = CreatePredictionParams::for_webhook(None, true);
    assert!(q.webhook.is_none() && q.webhook_events_filter.is_none());
}

#[test]
fn api_error_messages() {
    let e = APIError {
        error_type: Some("T".to_string()),
        title: None,
        status: Some(404),
        detail: Some("missing".to_string()),
        instance: Some("x".to_string()),
    };
    assert_eq!(e.to_string(), "T: missing (x)");
    let empty = APIError { error_type: None, title: None, status: None, detail: None, instance: None };
    assert_eq!(empty.to_string(), "unknown error");
}

#[test]
fn api_error_from_body() {
    let e = APIError::from_body(None, b"oops \"x\"\xff", 502);
    assert_eq!(e.status, Some(502));
    assert_eq!(e.detail.as_deref(), Some("Unknown error: \"oops \\\"x\\\"\u{fffd}\""));
    let parsed = APIError { error_type: None, title: Some("t".to_string()), status: None, detail: None, instance: None };
    let e = APIError::from_body(Some(parsed), b"{}", 429);
    assert_eq!(e.status, Some(429));
    assert_eq!(e.title.as_deref(), Some("t"));
}

#[test]
fn model_error_texts() {
    assert_eq!(model_error_message(Some("boom")), "model error: boom");
    assert_eq!(model_error_message(None), "model error: unknown error");
}

#[test]
fn params_for_direct_jobs() {
    let none = Webhook { url: "https://hook".to_string(), events: vec![] };
    let p = CreatePredictionParams::for_direct(Some(&none), false);
    assert_eq!(p.webhook.as_deref(), Some("https://hook"));
    assert!(p.webhook_events_filter.is_none());
    assert!(p.stream.is_none());
    let some = Webhook { url: "u".to_string(), events: vec!["start".to_string(), "logs".to_string()] };
    let q = CreatePredictionParams::for_direct(Some(&some), true);
    assert_eq!(q.webhook_events_filter, Some(vec!["start".to_string(), "logs".to_string()]));
    assert_eq!(q.stream, Some(true));
}

#[test]
fn model_error_shows_job_error_text() {
    let failed = job(Status::Failed, None, Some(serde_json::Value::String("boom".to_string())));
    assert_eq!(replicate::ModelError { prediction: failed }.to_string(), "model error: boom");
    let odd = job(Status::Failed, None, Some(serde_json::Value::Bool(true)));
    assert_eq!(replicate::ModelError { prediction: odd }.to_string(), "model error: unknown error");
}
