//! Reconciliation of strategy tasks with the agent's task status: the mapping from agent
//! task states to task phases, the decision taken for one in-flight task on each polling
//! tick, and the selection of execution steps that need to be written.

use vstd::prelude::*;
use vstd::string::*;

use crate::json::{JsonValue, json_equal, json_same, lemma_json_same_reflexive};

verus! {

/// The state of a task as the agent reports it (A2A task states).
#[derive(Debug, Clone, Copy, PartialEq, Eq, Structural)]
pub enum AgentTaskState {
    Submitted,
    Working,
    Completed,
    InputRequired,
    Canceled,
    Failed,
    Rejected,
}

/// The phase of a strategy task as the backend records it.
#[derive(Debug, Clone, Copy, PartialEq, Eq, Structural)]
pub enum StrategyTaskPhase {
    Pending,
    Running,
    Completed,
    Failed,
}

/// The status of one execution step of a task.
#[derive(Debug, Clone, Copy, PartialEq, Eq, Structural)]
pub enum StrategyTaskStepStatus {
    Running,
    Completed,
    Failed,
}

/// The phase a task is in, given the agent's state for it. Tasks run once and are never
/// resumed by the agent, so a task that asks for input has failed.
pub open spec fn phase_of(state: AgentTaskState) -> StrategyTaskPhase {
    match state {
        AgentTaskState::Submitted | AgentTaskState::Working => StrategyTaskPhase::Running,
        AgentTaskState::Completed => StrategyTaskPhase::Completed,
        _ => StrategyTaskPhase::Failed,
    }
}

/// Maps an agent task state to the strategy task phase.
pub fn phase_for_state(state: AgentTaskState) -> (r: StrategyTaskPhase)
    ensures
        r == phase_of(state),
{
    match state {
        AgentTaskState::Submitted | AgentTaskState::Working => StrategyTaskPhase::Running,
        AgentTaskState::Completed => StrategyTaskPhase::Completed,
        AgentTaskState::InputRequired
        | AgentTaskState::Canceled
        | AgentTaskState::Failed
        | AgentTaskState::Rejected => StrategyTaskPhase::Failed,
    }
}

/// The status of a task as the agent reports it: state, final text and error kind.
#[derive(Debug, Clone)]
pub struct AgentTaskStatus {
    pub state: AgentTaskState,
    pub result_text: Option<String>,
    pub error_kind: Option<String>,
}

/// The views of an optional string.
pub open spec fn opt_view(s: Option<String>) -> Option<Seq<char>> {
    match s {
        Some(x) => Some(x@),
        None => None,
    }
}

/// The error summary recorded with a phase: only failed tasks have one, the agent's error
/// kind or else a generic message.
pub open spec fn error_summary_spec(error_kind: Option<Seq<char>>, phase: StrategyTaskPhase) -> Option<
    Seq<char>,
> {
    if phase != StrategyTaskPhase::Failed {
        None
    } else {
        match error_kind {
            Some(k) => Some(k),
            None => Some("agent task failed"@),
        }
    }
}

fn clone_opt(s: &Option<String>) -> (r: Option<String>)
    ensures
        opt_view(r) == opt_view(*s),
{
    match s {
        Some(x) => Some(x.clone()),
        None => None,
    }
}

/// The error summary to record for a task entering `phase`: `None` unless the phase is
/// failed; then the agent's error kind, or "agent task failed" when it gives none.
pub fn error_summary_for(status: &AgentTaskStatus, phase: &StrategyTaskPhase) -> (r: Option<
    String,
>)
    ensures
        opt_view(r) == error_summary_spec(opt_view(status.error_kind), *phase),
{
    if *phase != StrategyTaskPhase::Failed {
        return None;
    }
    match &status.error_kind {
        Some(k) => Some(k.clone()),
        None => Some(String::from_str("agent task failed")),
    }
}

/// The step status named by a raw wire string, if it is one of the known three.
pub open spec fn step_status_of(raw: Seq<char>) -> Option<StrategyTaskStepStatus> {
    if raw == "running"@ {
        Some(StrategyTaskStepStatus::Running)
    } else if raw == "completed"@ {
        Some(StrategyTaskStepStatus::Completed)
    } else if raw == "failed"@ {
        Some(StrategyTaskStepStatus::Failed)
    } else {
        None
    }
}

/// Parses a step status from its wire string (`running` / `completed` / `failed`).
pub fn step_status_from_raw(raw: &str) -> (r: Option<StrategyTaskStepStatus>)
    ensures
        r == step_status_of(raw@),
{
    let s = String::from_str(raw);
    if s == String::from_str("running") {
        Some(StrategyTaskStepStatus::Running)
    } else if s == String::from_str("completed") {
        Some(StrategyTaskStepStatus::Completed)
    } else if s == String::from_str("failed") {
        Some(StrategyTaskStepStatus::Failed)
    } else {
        None
    }
}


/// The recorded state of one in-flight strategy task. Instants are microseconds since the
/// Unix epoch.
#[derive(Debug, Clone)]
pub struct TaskRow {
    pub a2a_task_id: Option<String>,
    pub phase: StrategyTaskPhase,
    pub error_summary: Option<String>,
    pub result_text: Option<String>,
    pub deadline_at: i64,
    pub auto_resumed_at: Option<i64>,
}

/// A phase to record for a task, with its error summary and final text; `use_reported_steps`
/// says whether the execution steps that came with the agent's status are to be written.
#[derive(Debug, Clone)]
pub struct PhaseUpdate {
    pub phase: StrategyTaskPhase,
    pub error_summary: Option<String>,
    pub result_text: Option<String>,
    pub use_reported_steps: bool,
}

/// What to do first for an in-flight task on a polling tick.
#[derive(Debug, Clone)]
pub enum ReconcileStart {
    /// Record this update without asking the agent.
    Settle(PhaseUpdate),
    /// Leave the task for the next tick.
    Skip,
    /// Ask the agent for the status of the task with this A2A id.
    Fetch(String),
}

/// Why the agent's status could not be had.
#[derive(Debug, Clone)]
pub enum FetchError {
    /// The agent does not know the task.
    NotFound,
    /// The agent could not be reached; the text describes the failure.
    Unreachable(String),
}

/// The update that marks a task failed with `message`.
pub open spec fn failed_update(message: Seq<char>) -> (StrategyTaskPhase, Option<Seq<char>>, Option<
    Seq<char>,
>, bool) {
    (StrategyTaskPhase::Failed, Some(message), None, false)
}

/// The contents of an update.
pub open spec fn update_view(u: PhaseUpdate) -> (StrategyTaskPhase, Option<Seq<char>>, Option<
    Seq<char>,
>, bool) {
    (u.phase, opt_view(u.error_summary), opt_view(u.result_text), u.use_reported_steps)
}

fn failed(message: String) -> (u: PhaseUpdate)
    ensures
        update_view(u) == failed_update(message@),
{
    PhaseUpdate {
        phase: StrategyTaskPhase::Failed,
        error_summary: Some(message),
        result_text: None,
        use_reported_steps: false,
    }
}

/// The first decision for a task: a task whose submission was never recorded (no A2A id)
/// fails once its deadline has passed and is otherwise left alone; any other task is looked
/// up at the agent.
pub fn begin_reconcile(row: &TaskRow, now: i64) -> (r: ReconcileStart)
    ensures
        row.a2a_task_id matches Some(id) ==> (r matches ReconcileStart::Fetch(f) && f@ == id@),
        row.a2a_task_id is None && now > row.deadline_at ==> (r matches ReconcileStart::Settle(u)
            && update_view(u) == failed_update("agent task submission was not recorded"@)),
        row.a2a_task_id is None && now <= row.deadline_at ==> r is Skip,
{
    match &row.a2a_task_id {
        Some(id) => ReconcileStart::Fetch(id.clone()),
        None => {
            if now > row.deadline_at {
                ReconcileStart::Settle(
                    failed(String::from_str("agent task submission was not recorded")),
                )
            } else {
                ReconcileStart::Skip
            }
        },
    }
}

/// The update recorded from a status that the agent reported: the phase its state maps to,
/// the error summary for that phase, and the reported final text or else the recorded one.
pub open spec fn status_update(row: TaskRow, status: AgentTaskStatus) -> (
    StrategyTaskPhase,
    Option<Seq<char>>,
    Option<Seq<char>>,
    bool,
) {
    let phase = phase_of(status.state);
    (
        phase,
        error_summary_spec(opt_view(status.error_kind), phase),
        match status.result_text {
            Some(t) => Some(t@),
            None => opt_view(row.result_text),
        },
        true,
    )
}

/// The message recorded for a task that the agent could not answer for after its deadline.
pub open spec fn fetch_failure_message(a2a_task_id: Seq<char>, err: FetchError) -> Seq<char> {
    match err {
        FetchError::NotFound => "agent task "@ + a2a_task_id + " not found"@,
        FetchError::Unreachable(text) => "agent task unreachable: "@ + text@,
    }
}

/// The decision once the agent has been asked: a reported status is recorded; a failure to
/// get one fails the task only after its deadline (before it the task is retried on the next
/// tick, since the agent may not have registered a fresh task yet).
pub fn finish_reconcile(
    row: &TaskRow,
    a2a_task_id: &str,
    fetched: Result<AgentTaskStatus, FetchError>,
    now: i64,
) -> (r: Option<PhaseUpdate>)
    ensures
        fetched matches Ok(status) ==> (r matches Some(u) && update_view(u) == status_update(
            *row,
            status,
        )),
        fetched matches Err(e) ==> (if now > row.deadline_at {
            r matches Some(u) && update_view(u) == failed_update(
                fetch_failure_message(a2a_task_id@, e),
            )
        } else {
            r is None
        }),
{
    match fetched {
        Ok(status) => {
            let phase = phase_for_state(status.state);
            let error_summary = error_summary_for(&status, &phase);
            let result_text = match status.result_text {
                Some(t) => Some(t),
                None => clone_opt(&row.result_text),
            };
            Some(PhaseUpdate { phase, error_summary, result_text, use_reported_steps: true })
        },
        Err(e) => {
            if now > row.deadline_at {
                let message = match e {
                    FetchError::NotFound => {
                        let mut m = String::from_str("agent task ");
                        m.append(a2a_task_id);
                        m.append(" not found");
                        m
                    },
                    FetchError::Unreachable(text) => {
                        let mut m = String::from_str("agent task unreachable: ");
                        m.append(text.as_str());
                        m
                    },
                };
                Some(failed(message))
            } else {
                None
            }
        },
    }
}

fn opt_string_eq(a: &Option<String>, b: &Option<String>) -> (r: bool)
    ensures
        r == (opt_view(*a) == opt_view(*b)),
{
    match (a, b) {
        (Some(x), Some(y)) => *x == *y,
        (None, None) => true,
        _ => false,
    }
}

/// Whether recording the update changes the task's phase, error summary or final text.
pub open spec fn row_changes(row: TaskRow, u: PhaseUpdate) -> bool {
    u.phase != row.phase || opt_view(u.error_summary) != opt_view(row.error_summary) || opt_view(
        u.result_text,
    ) != opt_view(row.result_text)
}

/// Whether the task row has to be written: the phase, error summary or final text differ.
pub fn phase_row_changed(row: &TaskRow, update: &PhaseUpdate) -> (r: bool)
    ensures
        r == row_changes(*row, *update),
{
    update.phase != row.phase || !opt_string_eq(&update.error_summary, &row.error_summary)
        || !opt_string_eq(&update.result_text, &row.result_text)
}

/// The row after recording an update.
pub open spec fn row_after(row: TaskRow, u: PhaseUpdate) -> TaskRow {
    TaskRow {
        phase: u.phase,
        error_summary: u.error_summary,
        result_text: u.result_text,
        ..row
    }
}

/// Recording an update is idempotent: once recorded, the same update changes nothing.
pub proof fn law_recorded_update_is_unchanged(row: TaskRow, u: PhaseUpdate)
    ensures
        !row_changes(row_after(row, u), u),
{
}

/// Whether a failed task is resumed automatically: it has not been resumed before, its
/// deadline has not passed, and the agent reports it failed because its execution was lost.
pub open spec fn eligible_for_resume(row: TaskRow, status: AgentTaskStatus, now: int) -> bool {
    &&& row.auto_resumed_at is None
    &&& now <= row.deadline_at
    &&& phase_of(status.state) == StrategyTaskPhase::Failed
    &&& opt_view(status.error_kind) == Some("execution_lost"@)
}

/// Decides whether a failed task is resumed automatically.
pub fn is_eligible(row: &TaskRow, status: &AgentTaskStatus, now: i64) -> (r: bool)
    ensures
        r == eligible_for_resume(*row, *status, now as int),
{
    if row.auto_resumed_at.is_some() || now > row.deadline_at {
        return false;
    }
    if phase_for_state(status.state) != StrategyTaskPhase::Failed {
        return false;
    }
    match &status.error_kind {
        Some(kind) => *kind == String::from_str("execution_lost"),
        None => false,
    }
}


/// An execution step as the agent reports it: its id, raw status string and the fields that
/// can change after the step was first reported.
#[derive(Debug)]
pub struct StepReport {
    pub execution_step_id: u128,
    pub status: String,
    pub output: Option<JsonValue>,
    pub finished_at: Option<i64>,
    pub error: Option<String>,
}

/// What the store holds of an execution step, as far as a new report can change it.
#[derive(Debug)]
pub struct StoredStep {
    pub execution_step_id: u128,
    pub status: StrategyTaskStepStatus,
    pub output: Option<JsonValue>,
    pub finished_at: Option<i64>,
    pub error: Option<String>,
}

/// A reported step to write: its position among the reports and its parsed status.
#[derive(Debug, Clone, Copy, PartialEq, Eq, Structural)]
pub struct StepWrite {
    pub index: usize,
    pub status: StrategyTaskStepStatus,
}

/// The stored step with the given id; where several share it, the last one.
pub open spec fn stored_for(existing: Seq<StoredStep>, id: u128) -> Option<StoredStep>
    decreases existing.len(),
{
    if existing.len() == 0 {
        None
    } else if existing.last().execution_step_id == id {
        Some(existing.last())
    } else {
        stored_for(existing.drop_last(), id)
    }
}

/// Structural equality of optional JSON values.
pub open spec fn opt_json_same(a: Option<JsonValue>, b: Option<JsonValue>) -> bool {
    match (a, b) {
        (Some(x), Some(y)) => json_same(x, y),
        (None, None) => true,
        _ => false,
    }
}

/// Whether a report leaves a stored step as it is: same status, output, finish time and error.
pub open spec fn step_unchanged(
    stored: StoredStep,
    report: StepReport,
    status: StrategyTaskStepStatus,
) -> bool {
    &&& stored.status == status
    &&& opt_json_same(stored.output, report.output)
    &&& stored.finished_at == report.finished_at
    &&& opt_view(stored.error) == opt_view(report.error)
}

/// The status with which a report is written, or `None` when it is skipped: a report with an
/// unknown status is skipped, and so is one that changes nothing of the stored step.
pub open spec fn step_write_status(existing: Seq<StoredStep>, report: StepReport) -> Option<
    StrategyTaskStepStatus,
> {
    match step_status_of(report.status@) {
        None => None,
        Some(status) => match stored_for(existing, report.execution_step_id) {
            Some(stored) => if step_unchanged(stored, report, status) {
                None
            } else {
                Some(status)
            },
            None => Some(status),
        },
    }
}

/// The writes for the first `n` reports, in report order.
pub open spec fn step_writes(existing: Seq<StoredStep>, reports: Seq<StepReport>, n: int) -> Seq<
    StepWrite,
>
    decreases n,
{
    if n <= 0 {
        Seq::empty()
    } else {
        let prev = step_writes(existing, reports, n - 1);
        match step_write_status(existing, reports[n - 1]) {
            Some(status) => prev.push(StepWrite { index: (n - 1) as usize, status }),
            None => prev,
        }
    }
}

fn opt_json_equal(a: &Option<JsonValue>, b: &Option<JsonValue>) -> (r: bool)
    ensures
        r == opt_json_same(*a, *b),
{
    match (a, b) {
        (Some(x), Some(y)) => json_equal(x, y),
        (None, None) => true,
        _ => false,
    }
}

fn opt_i64_eq(a: Option<i64>, b: Option<i64>) -> (r: bool)
    ensures
        r == (a == b),
{
    match (a, b) {
        (Some(x), Some(y)) => x == y,
        (None, None) => true,
        _ => false,
    }
}

fn find_stored(existing: &Vec<StoredStep>, id: u128) -> (r: Option<usize>)
    ensures
        match r {
            Some(i) => i < existing@.len() && stored_for(existing@, id) == Some(existing@[i as int]),
            None => stored_for(existing@, id) is None,
        },
{
    let mut i: usize = existing.len();
    assert(existing@.take(i as int) =~= existing@);
    while i > 0
        invariant
            0 <= i <= existing@.len(),
            stored_for(existing@, id) == stored_for(existing@.take(i as int), id),
        decreases i,
    {
        assert(existing@.take(i as int).drop_last() =~= existing@.take(i - 1));
        if existing[i - 1].execution_step_id == id {
            return Some(i - 1);
        }
        i = i - 1;
    }
    None
}

/// Selects the reported steps to write: those with a known status that are new or differ
/// from the stored step in status, output, finish time or error. The stored steps are those
/// of the task, as read before the write.
pub fn select_step_writes(existing: &Vec<StoredStep>, reports: &Vec<StepReport>) -> (r: Vec<
    StepWrite,
>)
    ensures
        r@ == step_writes(existing@, reports@, reports@.len() as int),
{
    let mut out: Vec<StepWrite> = Vec::new();
    let mut i: usize = 0;
    while i < reports.len()
        invariant
            0 <= i <= reports@.len(),
            out@ == step_writes(existing@, reports@, i as int),
        decreases reports.len() - i,
    {
        let report = &reports[i];
        match step_status_from_raw(report.status.as_str()) {
            None => {},
            Some(status) => {
                let write = match find_stored(existing, report.execution_step_id) {
                    Some(k) => {
                        let stored = &existing[k];
                        !(stored.status == status && opt_json_equal(&stored.output, &report.output)
                            && opt_i64_eq(stored.finished_at, report.finished_at)
                            && opt_string_eq(&stored.error, &report.error))
                    },
                    None => true,
                };
                if write {
                    out.push(StepWrite { index: i, status });
                }
            },
        }
        i = i + 1;
    }
    out
}

/// The stored row that a write leaves: the reported step with its parsed status.
pub open spec fn written_row(reports: Seq<StepReport>, w: StepWrite) -> StoredStep {
    let report = reports[w.index as int];
    StoredStep {
        execution_step_id: report.execution_step_id,
        status: w.status,
        output: report.output,
        finished_at: report.finished_at,
        error: report.error,
    }
}

/// The rows that a list of writes leaves, in order.
pub open spec fn written_rows(reports: Seq<StepReport>, writes: Seq<StepWrite>) -> Seq<StoredStep> {
    writes.map_values(|w: StepWrite| written_row(reports, w))
}

/// Whether no two reports share a step id.
pub open spec fn distinct_step_ids(reports: Seq<StepReport>) -> bool {
    forall|i: int, j: int|
        0 <= i < j < reports.len() ==> #[trigger] reports[i].execution_step_id
            != #[trigger] reports[j].execution_step_id
}

proof fn lemma_stored_for_concat(existing: Seq<StoredStep>, added: Seq<StoredStep>, id: u128)
    ensures
        stored_for(existing + added, id) == match stored_for(added, id) {
            Some(x) => Some(x),
            None => stored_for(existing, id),
        },
    decreases added.len(),
{
    if added.len() == 0 {
        assert(existing + added =~= existing);
    } else {
        assert((existing + added).drop_last() =~= existing + added.drop_last());
        lemma_stored_for_concat(existing, added.drop_last(), id);
    }
}

proof fn lemma_stored_for_unique(rows: Seq<StoredStep>, id: u128, j: int)
    requires
        0 <= j < rows.len(),
        rows[j].execution_step_id == id,
        forall|k: int| 0 <= k < rows.len() && k != j ==> (#[trigger] rows[k]).execution_step_id != id,
    ensures
        stored_for(rows, id) == Some(rows[j]),
    decreases rows.len(),
{
    if rows.len() - 1 != j {
        let t = rows.drop_last();
        assert forall|k: int| 0 <= k < t.len() && k != j implies (#[trigger] t[k]).execution_step_id
            != id by {
            assert(t[k] == rows[k]);
        }
        assert(t[j] == rows[j]);
        lemma_stored_for_unique(t, id, j);
    }
}

proof fn lemma_stored_for_absent(rows: Seq<StoredStep>, id: u128)
    requires
        forall|k: int| 0 <= k < rows.len() ==> (#[trigger] rows[k]).execution_step_id != id,
    ensures
        stored_for(rows, id) is None,
    decreases rows.len(),
{
    if rows.len() > 0 {
        let t = rows.drop_last();
        assert forall|k: int| 0 <= k < t.len() implies (#[trigger] t[k]).execution_step_id != id by {
            assert(t[k] == rows[k]);
        }
        lemma_stored_for_absent(t, id);
    }
}

proof fn lemma_step_writes_shape(existing: Seq<StoredStep>, reports: Seq<StepReport>, m: int)
    requires
        0 <= m <= reports.len(),
        reports.len() <= usize::MAX,
    ensures
        ({
            let w = step_writes(existing, reports, m);
            &&& forall|j: int|
                0 <= j < w.len() ==> (#[trigger] w[j]).index < m && step_write_status(
                    existing,
                    reports[w[j].index as int],
                ) == Some(w[j].status)
            &&& forall|j1: int, j2: int|
                0 <= j1 < j2 < w.len() ==> (#[trigger] w[j1]).index < (#[trigger] w[j2]).index
            &&& forall|k: int|
                0 <= k < m && (#[trigger] step_write_status(existing, reports[k])) is Some
                    ==> exists|j: int|
                    0 <= j < w.len() && (#[trigger] w[j]).index == k
        }),
    decreases m,
{
    if m > 0 {
        lemma_step_writes_shape(existing, reports, m - 1);
        let prev = step_writes(existing, reports, m - 1);
        let w = step_writes(existing, reports, m);
        match step_write_status(existing, reports[m - 1]) {
            Some(status) => {
                assert(w == prev.push(StepWrite { index: (m - 1) as usize, status }));
                assert forall|k: int|
                    0 <= k < m && (#[trigger] step_write_status(existing, reports[k])) is Some
                        implies exists|j: int| 0 <= j < w.len() && (#[trigger] w[j]).index == k by {
                    if k == m - 1 {
                        assert(w[prev.len() as int].index == k);
                    } else {
                        let j = choose|j: int| 0 <= j < prev.len() && (#[trigger] prev[j]).index == k;
                        assert(w[j] == prev[j]);
                    }
                }
            },
            None => {},
        }
    }
}

/// Writing the selected steps makes them current: once the written rows are stored (a
/// written row replaces the stored one with its id), the same reports select nothing more.
/// Reports are taken with distinct step ids, as the agent sends them.
pub proof fn law_written_steps_are_not_written_again(existing: Seq<StoredStep>, reports: Seq<StepReport>)
    requires
        distinct_step_ids(reports),
        reports.len() <= usize::MAX,
    ensures
        step_writes(
            existing + written_rows(reports, step_writes(existing, reports, reports.len() as int)),
            reports,
            reports.len() as int,
        ) == Seq::<StepWrite>::empty(),
{
    let n = reports.len() as int;
    let w = step_writes(existing, reports, n);
    let added = written_rows(reports, w);
    let after = existing + added;
    lemma_step_writes_shape(existing, reports, n);
    assert forall|k: int| 0 <= k < n implies (#[trigger] step_write_status(after, reports[k])) is None by {
        let report = reports[k];
        let id = report.execution_step_id;
        lemma_stored_for_concat(existing, added, id);
        match step_status_of(report.status@) {
            None => {},
            Some(status) => {
                if step_write_status(existing, report) is Some {
                    let j = choose|j: int| 0 <= j < w.len() && (#[trigger] w[j]).index == k;
                    assert(added[j] == written_row(reports, w[j]));
                    assert forall|x: int| 0 <= x < added.len() && x != j implies (
                    #[trigger] added[x]).execution_step_id != id by {
                        assert(added[x] == written_row(reports, w[x]));
                        if w[x].index as int == k {
                            if x < j {
                                assert(w[x].index < w[j].index);
                            } else {
                                assert(w[j].index < w[x].index);
                            }
                        } else if (w[x].index as int) < k {
                            assert(reports[w[x].index as int].execution_step_id != reports[k].execution_step_id);
                        } else {
                            assert(reports[k].execution_step_id != reports[w[x].index as int].execution_step_id);
                        }
                    }
                    lemma_stored_for_unique(added, id, j);
                    assert(w[j].status == status);
                    lemma_json_same_reflexive_opt(report.output);
                } else {
                    assert forall|x: int| 0 <= x < added.len() implies (
                    #[trigger] added[x]).execution_step_id != id by {
                        assert(added[x] == written_row(reports, w[x]));
                        let i = w[x].index as int;
                        if i == k {
                            assert(step_write_status(existing, reports[i]) is Some);
                        } else if i < k {
                            assert(reports[i].execution_step_id != reports[k].execution_step_id);
                        } else {
                            assert(reports[k].execution_step_id != reports[i].execution_step_id);
                        }
                    }
                    lemma_stored_for_absent(added, id);
                }
            },
        }
    }
    lemma_no_writes(after, reports, n);
}

proof fn lemma_json_same_reflexive_opt(v: Option<JsonValue>)
    ensures
        opt_json_same(v, v),
{
    match v {
        Some(x) => lemma_json_same_reflexive(x),
        None => {},
    }
}

proof fn lemma_no_writes(existing: Seq<StoredStep>, reports: Seq<StepReport>, m: int)
    requires
        0 <= m <= reports.len(),
        forall|k: int| 0 <= k < m ==> (#[trigger] step_write_status(existing, reports[k])) is None,
    ensures
        step_writes(existing, reports, m) == Seq::<StepWrite>::empty(),
    decreases m,
{
    if m > 0 {
        lemma_no_writes(existing, reports, m - 1);
    }
}

/// The final text the agent reports wins: a reported text is recorded as it came, whatever
/// text was recorded before (two tasks with different recorded texts get the same one); the
/// recorded text is kept only when the agent reports none.
pub proof fn law_reported_result_text_wins(row: TaskRow, other: TaskRow, status: AgentTaskStatus)
    ensures
        status.result_text matches Some(t) ==> status_update(row, status).2 == Some(t@),
        status.result_text is Some ==> status_update(row, status).2 == status_update(other, status).2,
        status.result_text is None ==> status_update(row, status).2 == opt_view(row.result_text),
{
}

} // verus!
