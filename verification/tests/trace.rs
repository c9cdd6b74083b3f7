//! The trace of events and refusals.

use spica_engine::handlers::states::harness::{
    minted_activity, minted_activity_ref, path, seeded_input, thread_ref,
};
use spica_engine::id::{RequestId, Uid};
use spica_engine::trace::{log_event, log_reject, TraceField, TraceLevel, TraceLine, TraceValue};
use spica_engine::types::event::{Event, StateTransitioned, VariablesAssigned};
use spica_engine::types::reject::{Reject, RejectionType};
use spica_engine::types::status::{Lifecycle, TerminationReason};
use spica_engine::value::{Value, Variables};

fn field(name: &str, value: TraceValue) -> TraceField {
    TraceField {
        name: name.to_string(),
        value,
    }
}

#[test]
fn entering_a_state_is_a_phase() {
    let activity = minted_activity(path("/States/P"), seeded_input());
    assert_eq!(
        log_event(&Event::StateActivating { activity }),
        TraceLine {
            level: TraceLevel::Debug,
            message: "entered state".to_string(),
            fields: vec![
                field(
                    "activity",
                    TraceValue::Text("activity/execution-0".to_string())
                ),
                field("state", TraceValue::Text("P".to_string())),
                field("raw_input", TraceValue::Json(seeded_input())),
            ],
        }
    );
}

#[test]
fn a_termination_is_a_warning_with_its_reason() {
    let mut activity = minted_activity(path("/States/P"), seeded_input());
    activity.status = Lifecycle::Terminated(TerminationReason::Cancelled);
    let line = log_event(&Event::StateTerminated { activity });
    assert_eq!(line.level, TraceLevel::Warn);
    assert_eq!(line.message, "state terminated");
    assert_eq!(
        line.fields[1],
        field(
            "reason",
            TraceValue::Status(Lifecycle::Terminated(TerminationReason::Cancelled))
        )
    );
}

#[test]
fn routing_names_the_next_path() {
    let line = log_event(&Event::StateTransitioned(StateTransitioned {
        activity: minted_activity_ref(),
        next: path("/States/P2"),
    }));
    assert_eq!(
        line.fields[1],
        field("next", TraceValue::Text("/States/P2".to_string()))
    );
}

#[test]
fn assigned_variables_are_named_not_shown() {
    let mut variables = Variables::new();
    variables.insert("b".to_string(), Value::Null);
    variables.insert("a".to_string(), Value::Null);
    let line = log_event(&Event::VariablesAssigned(VariablesAssigned {
        scope: thread_ref(),
        variables,
    }));
    let TraceValue::Keys(keys) = &line.fields[0].value else {
        panic!("the keys are shown: {line:?}");
    };
    assert_eq!(keys.len(), 2);
}

#[test]
fn a_notice_that_changed_nothing_is_logged_too() {
    let line = log_event(&Event::ProcessChildCompletedHandled {
        owner: thread_ref(),
        child: minted_activity_ref(),
    });
    assert_eq!(line.level, TraceLevel::Debug);
    assert_eq!(line.message, "child completion handled");
    assert_eq!(line.fields.len(), 2);
}

#[test]
fn a_refusal_is_a_warning() {
    let line = log_reject(&Reject {
        request_id: RequestId(Uid(5)),
        rejection_type: RejectionType::NotFound,
        rejection_reason: "gone".to_string(),
    });
    assert_eq!(line.level, TraceLevel::Warn);
    assert_eq!(line.message, "command rejected");
    assert_eq!(
        line.fields,
        vec![
            field("request_id", TraceValue::Request(RequestId(Uid(5)))),
            field(
                "rejection_type",
                TraceValue::Rejection(RejectionType::NotFound)
            ),
            field("rejection_reason", TraceValue::Text("gone".to_string())),
        ]
    );
}
