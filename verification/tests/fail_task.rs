//! Which errors a name matches.

use spica_engine::handlers::fail_task::error_matches;
use spica_engine::types::error::{ExecutionError, RuntimeError};

fn named(names: &[&str]) -> Vec<String> {
    names.iter().map(|n| n.to_string()).collect()
}

#[test]
fn error_matches_wildcards() {
    let err = ExecutionError::Runtime(RuntimeError::TimedOut {
        message: "t".into(),
    });
    assert!(error_matches(&named(&["States.ALL"]), &err));
    assert!(error_matches(
        &named(&["States.TaskFailed"]),
        &ExecutionError::Runtime(RuntimeError::Cancelled {
            message: "c".into()
        })
    ));
    assert!(!error_matches(&named(&["States.TaskFailed"]), &err));
    assert!(error_matches(&named(&["States.Timeout"]), &err));
    assert!(!error_matches(&named(&["Some.Other"]), &err));
}
