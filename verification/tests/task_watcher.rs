use backend::json::JsonValue;
use backend::watcher::{
    begin_reconcile, error_summary_for, finish_reconcile, is_eligible, phase_for_state,
    phase_row_changed, select_step_writes, step_status_from_raw, AgentTaskState, AgentTaskStatus,
    FetchError, PhaseUpdate, ReconcileStart, StepReport, StepWrite, StoredStep, StrategyTaskPhase,
    StrategyTaskStepStatus, TaskRow,
};

const NOW: i64 = 1_700_000_000_000_000;
const MINUTE: i64 = 60_000_000;

fn row(deadline_at: i64) -> TaskRow {
    TaskRow {
        a2a_task_id: Some("a2a-task".to_string()),
        phase: StrategyTaskPhase::Running,
        error_summary: None,
        result_text: None,
        deadline_at,
        auto_resumed_at: None,
    }
}

fn failed_status(kind: Option<&str>) -> AgentTaskStatus {
    AgentTaskStatus { state: AgentTaskState::Failed, result_text: None, error_kind: kind.map(str::to_string) }
}

#[test]
fn is_eligible_eligible() {
    assert!(is_eligible(&row(NOW + 15 * MINUTE), &failed_status(Some("execution_lost")), NOW));
}

#[test]
fn is_eligible_already_auto_resumed() {
    let mut r = row(NOW + 15 * MINUTE);
    r.auto_resumed_at = Some(NOW);
    assert!(!is_eligible(&r, &failed_status(Some("execution_lost")), NOW));
}

#[test]
fn is_eligible_past_deadline() {
    assert!(!is_eligible(&row(NOW + 15 * MINUTE - 60 * MINUTE), &failed_status(Some("execution_lost")), NOW));
}

#[test]
fn is_eligible_non_execution_lost_error_kind() {
    assert!(!is_eligible(&row(NOW + 15 * MINUTE), &failed_status(Some("usage_limit")), NOW));
}

#[test]
fn is_eligible_state_not_mapped_to_failed() {
    let status = AgentTaskStatus { state: AgentTaskState::Working, result_text: None, error_kind: Some("execution_lost".into()) };
    assert!(!is_eligible(&row(NOW + 15 * MINUTE), &status, NOW));
}

#[test]
fn phases_follow_agent_states() {
    assert_eq!(phase_for_state(AgentTaskState::Submitted), StrategyTaskPhase::Running);
    assert_eq!(phase_for_state(AgentTaskState::Working), StrategyTaskPhase::Running);
    assert_eq!(phase_for_state(AgentTaskState::Completed), StrategyTaskPhase::Completed);
    assert_eq!(phase_for_state(AgentTaskState::InputRequired), StrategyTaskPhase::Failed);
    assert_eq!(phase_for_state(AgentTaskState::Canceled), StrategyTaskPhase::Failed);
    assert_eq!(phase_for_state(AgentTaskState::Rejected), StrategyTaskPhase::Failed);
}

#[test]
fn error_summary_only_for_failed_phase() {
    let status = failed_status(None);
    assert_eq!(error_summary_for(&status, &StrategyTaskPhase::Running), None);
    assert_eq!(error_summary_for(&status, &StrategyTaskPhase::Failed), Some("agent task failed".into()));
    assert_eq!(error_summary_for(&failed_status(Some("usage_limit")), &StrategyTaskPhase::Failed), Some("usage_limit".into()));
}

#[test]
fn step_status_from_raw_cases() {
    assert_eq!(step_status_from_raw("running"), Some(StrategyTaskStepStatus::Running));
    assert_eq!(step_status_from_raw("completed"), Some(StrategyTaskStepStatus::Completed));
    assert_eq!(step_status_from_raw("failed"), Some(StrategyTaskStepStatus::Failed));
    assert_eq!(step_status_from_raw("Running"), None);
}

#[test]
fn unrecorded_submission_waits_for_deadline() {
    let mut r = row(NOW + MINUTE);
    r.a2a_task_id = None;
    assert!(matches!(begin_reconcile(&r, NOW), ReconcileStart::Skip));
    match begin_reconcile(&r, NOW + 2 * MINUTE) {
        ReconcileStart::Settle(u) => {
            assert_eq!(u.phase, StrategyTaskPhase::Failed);
            assert_eq!(u.error_summary, Some("agent task submission was not recorded".to_string()));
            assert_eq!(u.result_text, None);
        }
        other => panic!("unexpected {other:?}"),
    }
}

#[test]
fn recorded_submission_is_fetched() {
    match begin_reconcile(&row(NOW), NOW) {
        ReconcileStart::Fetch(id) => assert_eq!(id, "a2a-task"),
        other => panic!("unexpected {other:?}"),
    }
}

#[test]
fn unreachable_agent_fails_task_only_after_deadline() {
    let r = row(NOW);
    assert!(finish_reconcile(&r, "a2a-task", Err(FetchError::Unreachable("timeout".into())), NOW).is_none());
    let u = finish_reconcile(&r, "a2a-task", Err(FetchError::Unreachable("timeout".into())), NOW + 1).expect("failed");
    assert_eq!(u.phase, StrategyTaskPhase::Failed);
    assert_eq!(u.error_summary, Some("agent task unreachable: timeout".to_string()));
    let u = finish_reconcile(&r, "a2a-task", Err(FetchError::NotFound), NOW + 1).expect("failed");
    assert_eq!(u.error_summary, Some("agent task a2a-task not found".to_string()));
}

#[test]
fn reported_status_keeps_previous_text_when_none_reported() {
    let mut r = row(NOW);
    r.result_text = Some("draft".into());
    let status = AgentTaskStatus { state: AgentTaskState::Completed, result_text: None, error_kind: None };
    let u = finish_reconcile(&r, "a2a-task", Ok(status), NOW).expect("update");
    assert_eq!(u.phase, StrategyTaskPhase::Completed);
    assert_eq!(u.error_summary, None);
    assert_eq!(u.result_text, Some("draft".into()));
    assert!(u.use_reported_steps);
}

#[test]
fn recorded_update_is_unchanged_when_recorded_again() {
    let r = row(NOW);
    let u = PhaseUpdate {
        phase: StrategyTaskPhase::Failed,
        error_summary: Some("x".into()),
        result_text: None,
        use_reported_steps: false,
    };
    assert!(phase_row_changed(&r, &u));
    let after = TaskRow { phase: u.phase, error_summary: u.error_summary.clone(), result_text: u.result_text.clone(), ..r };
    assert!(!phase_row_changed(&after, &u));
}

fn report(id: u128, status: &str, output: Option<JsonValue>) -> StepReport {
    StepReport { execution_step_id: id, status: status.into(), output, finished_at: None, error: None }
}

#[test]
fn step_writes_skip_unknown_and_unchanged_steps() {
    let existing = vec![StoredStep {
        execution_step_id: 1,
        status: StrategyTaskStepStatus::Running,
        output: Some(JsonValue::Number("1".into())),
        finished_at: None,
        error: None,
    }];
    let reports = vec![
        report(1, "running", Some(JsonValue::Number("1".into()))),
        report(2, "bogus", None),
        report(3, "completed", None),
        report(1, "completed", Some(JsonValue::Number("1".into()))),
    ];
    let writes = select_step_writes(&existing, &reports);
    assert_eq!(
        writes,
        vec![
            StepWrite { index: 2, status: StrategyTaskStepStatus::Completed },
            StepWrite { index: 3, status: StrategyTaskStepStatus::Completed },
        ]
    );
}

#[test]
fn written_steps_are_not_written_again() {
    let reports = vec![report(7, "completed", Some(JsonValue::String("done".into()))), report(8, "failed", None)];
    let writes = select_step_writes(&vec![], &reports);
    assert_eq!(writes.len(), 2);
    let stored: Vec<StoredStep> = writes
        .iter()
        .map(|w| StoredStep {
            execution_step_id: reports[w.index].execution_step_id,
            status: w.status,
            output: match &reports[w.index].output {
                Some(JsonValue::String(s)) => Some(JsonValue::String(s.clone())),
                _ => None,
            },
            finished_at: None,
            error: None,
        })
        .collect();
    assert!(select_step_writes(&stored, &reports).is_empty());
}
