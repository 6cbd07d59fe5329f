use token_shepherd::quota::HelperOutcome;
use token_shepherd::quota::InvocationOutcome;
use token_shepherd::quota::QuotaError;
use token_shepherd::quota::fetch_quota;
use token_shepherd::quota::interpret_helper_output;

fn ran(exit_ok: bool, stdout: &str, stderr: &str) -> HelperOutcome {
    HelperOutcome {
        exit_ok,
        stdout: stdout.to_string(),
        stderr: stderr.to_string(),
    }
}

#[test]
fn quota_round_trip() {
    let r = interpret_helper_output(ran(true, "{\"used\": 10, \"limit\": 100}", ""));
    let mut expected = serde_json::Map::new();
    expected.insert(
        "used".to_string(),
        serde_json::Value::Number(serde_json::Number::from(10u64)),
    );
    expected.insert(
        "limit".to_string(),
        serde_json::Value::Number(serde_json::Number::from(100u64)),
    );
    assert_eq!(r.unwrap(), serde_json::Value::Object(expected));
}

#[test]
fn helper_failure_carries_stderr() {
    let r = interpret_helper_output(ran(false, "", "rate limited"));
    match r {
        Err(QuotaError::HelperExecutionFailure(diag)) => {
            assert!(diag.contains("rate limited"));
            assert_eq!(diag, "rate limited");
        }
        other => panic!("expected HelperExecutionFailure, got {:?}", other),
    }
}

#[test]
fn malformed_output_is_parse_failure() {
    let r = interpret_helper_output(ran(true, "not-json", ""));
    match r {
        Err(QuotaError::ResponseParseFailure(message, raw)) => {
            assert_eq!(raw, "not-json");
            assert!(!message.is_empty());
        }
        other => panic!("expected ResponseParseFailure, got {:?}", other),
    }
}

#[test]
fn nonzero_exit_wins_over_parseable_output() {
    let r = interpret_helper_output(ran(false, "{\"used\": 1}", "boom"));
    assert!(matches!(r, Err(QuotaError::HelperExecutionFailure(ref d)) if d == "boom"));
}

#[test]
fn resolution_failure_surfaces_before_spawn() {
    let r = fetch_quota(InvocationOutcome::ResolutionFailed(
        "Failed to get resource dir: missing".to_string(),
    ));
    match r {
        Err(QuotaError::ResourceResolutionFailure(diag)) => {
            assert!(diag.contains("missing"));
        }
        other => panic!("expected ResourceResolutionFailure, got {:?}", other),
    }
}

#[test]
fn spawn_failure_is_terminal_for_the_call() {
    let r = fetch_quota(InvocationOutcome::SpawnFailed(
        "Failed to execute node: not found".to_string(),
    ));
    match r {
        Err(QuotaError::SpawnFailure(diag)) => {
            assert!(diag.contains("not found"));
        }
        other => panic!("expected SpawnFailure, got {:?}", other),
    }
}

#[test]
fn completed_run_is_interpreted() {
    let r = fetch_quota(InvocationOutcome::Ran(ran(true, "[1, 2, 3]", "")));
    let expected = serde_json::Value::Array(vec![
        serde_json::Value::Number(serde_json::Number::from(1u64)),
        serde_json::Value::Number(serde_json::Number::from(2u64)),
        serde_json::Value::Number(serde_json::Number::from(3u64)),
    ]);
    assert_eq!(r.unwrap(), expected);
}
