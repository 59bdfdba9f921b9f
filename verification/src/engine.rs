//! The reconciliation engine.
//!
//! A reconciliation pass advances the status of one experiment by one
//! logical step. On the way it needs work done that only the outside world
//! can do: reading the clock, patching the mesh, driving the agents, fetching
//! metrics and traces, evaluating the impact formula, storing the report. The
//! engine does none of that itself. It hands its caller a [`Request`], takes
//! the [`Reply`], and says what to do next, until the pass is finished. All
//! continuity between passes lives in the status record.

use crate::errors::{DomainError, DomainErrorView};
use crate::measure::Measurement;
use crate::models::{
    edges_view, Artifacts, ChaosExperimentSpec, ChaosExperimentStatus, ChaosReport,
    ChaosReportView, Edge, EdgeView, ExperimentRef, ExperimentRefView, Phase, ServiceResult,
    ServiceResultView, StatusView, Topology, TopologyView, Windows, WindowsView,
};
use crate::text::{decimal, decimal_text};
use crate::time::Timestamp;
use crate::topology::{collect_nodes, nodes_of};
use vstd::prelude::*;
use vstd::string::StringExecFns;

verus! {

/// The four measured values that the impact of an experiment is judged by.
#[derive(Debug, Clone, Copy, PartialEq, Eq)]
pub struct Samples {
    pub rps_base: Measurement,
    pub rps_fail: Measurement,
    pub p95_base_ms: Measurement,
    pub p95_fail_ms: Measurement,
}

/// Where a pass stands: which reply it is waiting for, and what it has
/// gathered so far.
#[derive(Debug, Clone, Copy, PartialEq, Eq)]
pub enum Stage {
    /// Waiting for the time at which the experiment starts.
    StartTime,
    /// Waiting for the mesh fault to be applied.
    Applying,
    /// Waiting for the agents to start their load.
    Starting,
    /// Waiting for the time to hold against the end of the experiment.
    Deadline,
    /// Waiting for the mesh fault to be rolled back.
    RollingBack,
    /// Waiting for the agents to stop their load.
    Stopping,
    /// Waiting for the baseline request rate.
    RpsBase,
    /// Waiting for the request rate under failure.
    RpsFail { rps_base: Measurement },
    /// Waiting for the baseline tail latency.
    P95Base { rps_base: Measurement, rps_fail: Measurement },
    /// Waiting for the tail latency under failure.
    P95Fail { rps_base: Measurement, rps_fail: Measurement, p95_base_ms: Measurement },
    /// Waiting for the impact score of the samples.
    Scoring { samples: Samples },
    /// Waiting for the edges seen in the failure window.
    Tracing { samples: Samples, impact: Measurement },
    /// Waiting for the report to be stored.
    Storing,
    /// The pass is over.
    Finished,
}

/// A pass in progress.
#[derive(Debug, Clone, Copy, PartialEq, Eq)]
pub struct Pass {
    pub stage: Stage,
}

/// What the engine asks of its caller.
#[derive(Debug, PartialEq)]
pub enum Request {
    /// Read the clock. Answered by [`Reply::Now`].
    Now,
    /// Apply the mesh fault of the experiment. Answered by [`Reply::Done`].
    ApplyFault,
    /// Start the agents' load. Answered by [`Reply::Done`].
    StartLoad,
    /// Roll the mesh fault back. Answered by [`Reply::Done`].
    RollbackFault,
    /// Stop the agents' load. Answered by [`Reply::Done`].
    StopLoad,
    /// Fetch one metric value over a window. Answered by [`Reply::Value`].
    FetchValue { query: String, window: String },
    /// Evaluate the impact formula on four samples whose baselines are
    /// greater than zero or not numbers: the relative drop in request rate
    /// plus the relative rise in tail latency, each in percent, that is
    /// `((rps_base - rps_fail) / rps_base) * 100 + ((p95_fail_ms -
    /// p95_base_ms) / p95_base_ms) * 100` in binary64 arithmetic. Answered
    /// by [`Reply::Impact`].
    Impact { samples: Samples },
    /// Fetch the call graph edges seen in a window. Answered by [`Reply::Edges`].
    FetchEdges { window: String },
    /// Store the report. Answered by [`Reply::Done`].
    StoreReport { report: ChaosReport },
    /// Nothing more: the pass is over, with this result.
    Finished { result: Result<(), DomainError> },
}

/// Mathematical model of a [`Request`].
pub enum RequestView {
    Now,
    ApplyFault,
    StartLoad,
    RollbackFault,
    StopLoad,
    FetchValue { query: Seq<char>, window: Seq<char> },
    Impact { samples: Samples },
    FetchEdges { window: Seq<char> },
    StoreReport { report: ChaosReportView },
    Finished { result: Result<(), DomainErrorView> },
}

/// The model of the outcome of a call that returns nothing.
pub open spec fn outcome_view(r: Result<(), DomainError>) -> Result<(), DomainErrorView> {
    match r {
        Ok(_) => Ok(()),
        Err(e) => Err(e@),
    }
}

impl View for Request {
    type V = RequestView;

    open spec fn view(&self) -> RequestView {
        match self {
            Request::Now => RequestView::Now,
            Request::ApplyFault => RequestView::ApplyFault,
            Request::StartLoad => RequestView::StartLoad,
            Request::RollbackFault => RequestView::RollbackFault,
            Request::StopLoad => RequestView::StopLoad,
            Request::FetchValue { query, window } => RequestView::FetchValue {
                query: query@,
                window: window@,
            },
            Request::Impact { samples } => RequestView::Impact { samples: *samples },
            Request::FetchEdges { window } => RequestView::FetchEdges { window: window@ },
            Request::StoreReport { report } => RequestView::StoreReport { report: report@ },
            Request::Finished { result } => RequestView::Finished {
                result: outcome_view(*result),
            },
        }
    }
}

/// What the caller hands back.
#[derive(Debug, PartialEq)]
pub enum Reply {
    /// The current time.
    Now(Timestamp),
    /// The outcome of a call that returns nothing.
    Done(Result<(), DomainError>),
    /// A metric value, or why there is none.
    Value(Result<Measurement, DomainError>),
    /// The impact score.
    Impact(Measurement),
    /// The edges, or why there are none.
    Edges(Result<Vec<Edge>, DomainError>),
}

/// Mathematical model of a [`Reply`].
pub enum ReplyView {
    Now(Timestamp),
    Done(Result<(), DomainErrorView>),
    Value(Result<Measurement, DomainErrorView>),
    Impact(Measurement),
    Edges(Result<Seq<EdgeView>, DomainErrorView>),
}

impl ReplyView {
    /// Whether the reply says that a call that returns nothing has succeeded.
    pub open spec fn confirms(self) -> bool {
        self matches ReplyView::Done(Ok(_))
    }
}

impl View for Reply {
    type V = ReplyView;

    open spec fn view(&self) -> ReplyView {
        match self {
            Reply::Now(t) => ReplyView::Now(*t),
            Reply::Done(r) => ReplyView::Done(outcome_view(*r)),
            Reply::Value(r) => ReplyView::Value(
                match r {
                    Ok(v) => Ok(*v),
                    Err(e) => Err(e@),
                },
            ),
            Reply::Impact(m) => ReplyView::Impact(*m),
            Reply::Edges(r) => ReplyView::Edges(
                match r {
                    Ok(v) => Ok(edges_view(v@)),
                    Err(e) => Err(e@),
                },
            ),
        }
    }
}

/// The engine between two steps of a pass: where the pass stands, the status
/// as it is now, and what the caller has been asked to do.
pub struct Progress {
    pub stage: Stage,
    pub status: StatusView,
    pub request: RequestView,
}

impl Progress {
    /// Whether the pass is over.
    pub open spec fn is_finished(self) -> bool {
        self.request is Finished
    }

    /// Whether the pass is over and has succeeded.
    pub open spec fn succeeded(self) -> bool {
        self.request matches RequestView::Finished { result: Ok(_) }
    }

    /// Whether the pass is over and has failed.
    pub open spec fn failed(self) -> bool {
        self.request matches RequestView::Finished { result: Err(_) }
    }
}

/// What a step has come to, as a [`Progress`].
pub open spec fn progress_of(step: (Pass, Request), status: StatusView) -> Progress {
    Progress { stage: step.0.stage, status, request: step.1@ }
}

/// The end of a pass.
pub open spec fn finished(status: StatusView, result: Result<(), DomainErrorView>) -> Progress {
    Progress { stage: Stage::Finished, status, request: RequestView::Finished { result } }
}

/// The pass waits at `stage` for the answer to `request`.
pub open spec fn waiting(stage: Stage, status: StatusView, request: RequestView) -> Progress {
    Progress { stage, status, request }
}

/// What the validation of a specification gives: the targets must not be
/// empty and the duration must not be zero.
pub open spec fn validation_of(experiment: &ChaosExperimentSpec) -> Result<(), DomainErrorView> {
    if experiment.targets@.len() == 0 {
        Err(DomainErrorView::Validation("targets must not be empty"@))
    } else if experiment.duration_seconds == 0 {
        Err(DomainErrorView::Validation("durationSeconds must be > 0"@))
    } else {
        Ok(())
    }
}

/// The descriptor of the window before the fault: from twice the duration
/// ago to one duration ago.
pub open spec fn baseline_window_text(duration_seconds: nat) -> Seq<char> {
    "now-"@ + decimal_text(2 * duration_seconds) + "s_to_now-"@ + decimal_text(duration_seconds)
        + "s"@
}

/// The descriptor of the window of the fault: from now to one duration ahead.
pub open spec fn failure_window_text(duration_seconds: nat) -> Seq<char> {
    "now_to_now+"@ + decimal_text(duration_seconds) + "s"@
}

/// The status with both windows computed for an experiment of the given duration.
pub open spec fn with_windows(status: StatusView, duration_seconds: nat) -> StatusView {
    StatusView {
        baseline_window: Some(baseline_window_text(duration_seconds)),
        failure_window: Some(failure_window_text(duration_seconds)),
        ..status
    }
}

/// The status of an experiment that leaves `Pending` at the instant `now`.
pub open spec fn started(
    experiment: &ChaosExperimentSpec,
    status: StatusView,
    now: Timestamp,
) -> StatusView {
    StatusView {
        phase: Phase::Running,
        started_at: Some(now),
        ends_at: Some(now.later(experiment.duration_seconds)),
        ..with_windows(status, experiment.duration_seconds as nat)
    }
}

/// The name under which the results are reported: the service of the first target.
pub open spec fn first_target_name(experiment: &ChaosExperimentSpec) -> Seq<char> {
    if experiment.targets@.len() > 0 {
        experiment.targets@[0].service@
    } else {
        "unknown"@
    }
}

/// The report of an experiment.
pub open spec fn report_of(
    experiment: &ChaosExperimentSpec,
    exp_ref: ExperimentRefView,
    baseline: Seq<char>,
    failure: Seq<char>,
    samples: Samples,
    impact: Measurement,
    edges: Seq<EdgeView>,
) -> ChaosReportView {
    ChaosReportView {
        experiment_ref: exp_ref,
        windows: WindowsView { baseline, failure },
        results: seq![
            ServiceResultView {
                name: first_target_name(experiment),
                rps_base: samples.rps_base,
                rps_fail: samples.rps_fail,
                p95_base_ms: samples.p95_base_ms,
                p95_fail_ms: samples.p95_fail_ms,
                impact_score: impact,
            },
        ],
        topology: TopologyView { nodes: nodes_of(edges), edges },
        artifacts: "{}"@,
    }
}

/// The failure of a step that needs windows the status does not have.
pub open spec fn windows_missing(status: StatusView) -> Progress {
    finished(status, Err(DomainErrorView::State("windows not computed"@)))
}

/// The failure of a step that was handed a reply to another request.
pub open spec fn out_of_turn(status: StatusView) -> Progress {
    finished(status, Err(DomainErrorView::State("reply does not answer the request"@)))
}

/// Asks for one metric value, over the baseline window or the failure window.
pub open spec fn fetching(
    status: StatusView,
    stage: Stage,
    query: Seq<char>,
    over_baseline: bool,
) -> Progress {
    match (status.baseline_window, status.failure_window) {
        (Some(b), Some(f)) => waiting(
            stage,
            status,
            RequestView::FetchValue { query, window: if over_baseline { b } else { f } },
        ),
        _ => windows_missing(status),
    }
}

/// Finalizing, once the agents are dealt with: the measuring begins.
pub open spec fn after_stop(status: StatusView) -> Progress {
    fetching(status, Stage::RpsBase, "rps_base"@, true)
}

/// Finalizing, once the mesh is dealt with: the agents' load is stopped
/// where the experiment uses agents.
pub open spec fn after_rollback(experiment: &ChaosExperimentSpec, status: StatusView) -> Progress {
    if experiment.mode.uses_agents() {
        waiting(Stage::Stopping, status, RequestView::StopLoad)
    } else {
        after_stop(status)
    }
}

/// Finalizing: the mesh fault is rolled back where one is applied.
pub open spec fn finalize_spec(experiment: &ChaosExperimentSpec, status: StatusView) -> Progress {
    if experiment.mode.uses_mesh() && status.istio_patched {
        waiting(Stage::RollingBack, status, RequestView::RollbackFault)
    } else {
        after_rollback(experiment, status)
    }
}

/// Running, once the agents are dealt with: the clock is read where the
/// experiment has an end.
pub open spec fn after_start(status: StatusView) -> Progress {
    if status.ends_at is Some {
        waiting(Stage::Deadline, status, RequestView::Now)
    } else {
        finished(status, Ok(()))
    }
}

/// Running, once the mesh is dealt with: the agents' load is started where
/// the experiment uses agents, on every pass.
pub open spec fn maybe_start_agents_spec(
    experiment: &ChaosExperimentSpec,
    status: StatusView,
) -> Progress {
    if experiment.mode.uses_agents() {
        waiting(Stage::Starting, status, RequestView::StartLoad)
    } else {
        after_start(status)
    }
}

/// Running: the mesh fault is applied where the experiment uses the mesh and
/// no fault is applied yet.
pub open spec fn maybe_apply_mesh_spec(
    experiment: &ChaosExperimentSpec,
    status: StatusView,
) -> Progress {
    if experiment.mode.uses_mesh() && !status.istio_patched {
        waiting(Stage::Applying, status, RequestView::ApplyFault)
    } else {
        maybe_start_agents_spec(experiment, status)
    }
}

/// The first step of a pass.
pub open spec fn reconcile_spec(experiment: &ChaosExperimentSpec, status: StatusView) -> Progress {
    match status.phase {
        Phase::Pending => match validation_of(experiment) {
            Err(e) => finished(status, Err(e)),
            Ok(_) => waiting(Stage::StartTime, status, RequestView::Now),
        },
        Phase::Running => maybe_apply_mesh_spec(experiment, status),
        Phase::Stopping => finalize_spec(experiment, status),
        Phase::Completed | Phase::Error => finished(status, Ok(())),
    }
}

/// What a failed call comes to: the pass ends with the call's error and the
/// status as it was.
pub open spec fn unless_failed(
    outcome: Result<(), DomainErrorView>,
    status: StatusView,
    next: Progress,
) -> Progress {
    match outcome {
        Ok(_) => next,
        Err(e) => finished(status, Err(e)),
    }
}

/// What the check of the two baselines gives: each must be a usable
/// reference point, that is, not less than or equal to zero.
pub open spec fn baselines_checked(
    rps_base: Measurement,
    p95_base_ms: Measurement,
) -> Result<(), DomainErrorView> {
    if rps_base.at_most_zero() || p95_base_ms.at_most_zero() {
        Err(DomainErrorView::InvalidInput("baseline values must be > 0"@))
    } else {
        Ok(())
    }
}

/// The step after the last sample has come in: the baselines are checked,
/// and the impact is asked for.
pub open spec fn scoring(status: StatusView, samples: Samples) -> Progress {
    match baselines_checked(samples.rps_base, samples.p95_base_ms) {
        Err(e) => finished(status, Err(e)),
        Ok(_) => waiting(Stage::Scoring { samples }, status, RequestView::Impact { samples }),
    }
}

/// The edges that a reply brings: none where the lookup failed.
pub open spec fn edges_or_none(found: Result<Seq<EdgeView>, DomainErrorView>) -> Seq<EdgeView> {
    match found {
        Ok(edges) => edges,
        Err(_) => Seq::empty(),
    }
}

/// Every later step of a pass: from the stage the pass waits at, the status,
/// and the reply that came in.
pub open spec fn resume_spec(
    experiment: &ChaosExperimentSpec,
    exp_ref: ExperimentRefView,
    stage: Stage,
    status: StatusView,
    reply: ReplyView,
) -> Progress {
    match (stage, reply) {
        (Stage::StartTime, ReplyView::Now(now)) => finished(
            started(experiment, status, now),
            Ok(()),
        ),
        (Stage::Applying, ReplyView::Done(outcome)) => unless_failed(
            outcome,
            status,
            maybe_start_agents_spec(experiment, StatusView { istio_patched: true, ..status }),
        ),
        (Stage::Starting, ReplyView::Done(outcome)) => unless_failed(
            outcome,
            status,
            after_start(status),
        ),
        (Stage::Deadline, ReplyView::Now(now)) => match status.ends_at {
            Some(end) => if now.at_or_after(end) {
                finalize_spec(experiment, status)
            } else {
                finished(status, Ok(()))
            },
            None => finished(status, Ok(())),
        },
        (Stage::RollingBack, ReplyView::Done(outcome)) => unless_failed(
            outcome,
            status,
            after_rollback(experiment, StatusView { istio_patched: false, ..status }),
        ),
        (Stage::Stopping, ReplyView::Done(outcome)) => unless_failed(
            outcome,
            status,
            after_stop(status),
        ),
        (Stage::RpsBase, ReplyView::Value(Ok(v))) => fetching(
            status,
            Stage::RpsFail { rps_base: v },
            "rps_fail"@,
            false,
        ),
        (Stage::RpsFail { rps_base }, ReplyView::Value(Ok(v))) => fetching(
            status,
            Stage::P95Base { rps_base, rps_fail: v },
            "p95_base"@,
            true,
        ),
        (Stage::P95Base { rps_base, rps_fail }, ReplyView::Value(Ok(v))) => fetching(
            status,
            Stage::P95Fail { rps_base, rps_fail, p95_base_ms: v },
            "p95_fail"@,
            false,
        ),
        (Stage::P95Fail { rps_base, rps_fail, p95_base_ms }, ReplyView::Value(Ok(v))) => scoring(
            status,
            Samples { rps_base, rps_fail, p95_base_ms, p95_fail_ms: v },
        ),
        (Stage::RpsBase, ReplyView::Value(Err(e))) => finished(status, Err(e)),
        (Stage::RpsFail { .. }, ReplyView::Value(Err(e))) => finished(status, Err(e)),
        (Stage::P95Base { .. }, ReplyView::Value(Err(e))) => finished(status, Err(e)),
        (Stage::P95Fail { .. }, ReplyView::Value(Err(e))) => finished(status, Err(e)),
        (Stage::Scoring { samples }, ReplyView::Impact(impact)) => match (
            status.baseline_window,
            status.failure_window,
        ) {
            (Some(_), Some(f)) => waiting(
                Stage::Tracing { samples, impact },
                status,
                RequestView::FetchEdges { window: f },
            ),
            _ => windows_missing(status),
        },
        (Stage::Tracing { samples, impact }, ReplyView::Edges(found)) => match (
            status.baseline_window,
            status.failure_window,
        ) {
            (Some(b), Some(f)) => waiting(
                Stage::Storing,
                status,
                RequestView::StoreReport {
                    report: report_of(experiment, exp_ref, b, f, samples, impact, edges_or_none(found)),
                },
            ),
            _ => windows_missing(status),
        },
        (Stage::Storing, ReplyView::Done(outcome)) => unless_failed(
            outcome,
            status,
            finished(StatusView { phase: Phase::Completed, ..status }, Ok(())),
        ),
        _ => out_of_turn(status),
    }
}

/// Ends a pass with `result`.
fn finish(result: Result<(), DomainError>) -> (step: (Pass, Request))
    ensures
        step.0.stage == Stage::Finished,
        step.1@ == (RequestView::Finished { result: outcome_view(result) }),
{
    (Pass { stage: Stage::Finished }, Request::Finished { result })
}

/// Lets a pass wait at `stage` for the answer to `request`.
fn wait(stage: Stage, request: Request) -> (step: (Pass, Request))
    ensures
        step.0.stage == stage,
        step.1 == request,
{
    (Pass { stage }, request)
}

/// Checks a specification: it must name a target and last for some time.
pub fn validate_spec(experiment: &ChaosExperimentSpec) -> (r: Result<(), DomainError>)
    ensures
        outcome_view(r) == validation_of(experiment),
{
    if experiment.targets.len() == 0 {
        return Err(DomainError::validation("targets must not be empty"));
    }
    if experiment.duration_seconds == 0 {
        return Err(DomainError::validation("durationSeconds must be > 0"));
    }
    Ok(())
}

/// Checks the baselines that an impact score is to be computed from. A
/// baseline that is zero or less, negative zero and negative infinity among
/// them, is refused: it is no reference point. One that is not a number
/// compares with nothing and passes.
pub fn check_baselines(rps_base: Measurement, p95_base_ms: Measurement) -> (r: Result<
    (),
    DomainError,
>)
    ensures
        outcome_view(r) == baselines_checked(rps_base, p95_base_ms),
        r is Err <==> rps_base.at_most_zero() || p95_base_ms.at_most_zero(),
        r matches Err(e) ==> e@ is InvalidInput,
{
    if rps_base.is_at_most_zero() || p95_base_ms.is_at_most_zero() {
        Err(DomainError::invalid_input("baseline values must be > 0"))
    } else {
        Ok(())
    }
}

/// Writes the descriptor of the window before the fault.
pub fn baseline_window(duration_seconds: u32) -> (window: String)
    ensures
        window@ == baseline_window_text(duration_seconds as nat),
{
    let d: u64 = duration_seconds as u64;
    let twice = decimal(2 * d);
    let once = decimal(d);
    let mut window = String::from_str("now-");
    window.append(twice.as_str());
    window.append("s_to_now-");
    window.append(once.as_str());
    window.append("s");
    window
}

/// Writes the descriptor of the window of the fault.
pub fn failure_window(duration_seconds: u32) -> (window: String)
    ensures
        window@ == failure_window_text(duration_seconds as nat),
{
    let once = decimal(duration_seconds as u64);
    let mut window = String::from_str("now_to_now+");
    window.append(once.as_str());
    window.append("s");
    window
}

/// Computes both windows of an experiment and records them in its status.
pub fn compute_windows(experiment: &ChaosExperimentSpec, status: &mut ChaosExperimentStatus) -> (r:
    Result<(), DomainError>)
    ensures
        r is Ok,
        final(status)@ == with_windows(old(status)@, experiment.duration_seconds as nat),
{
    status.baseline_window = Some(baseline_window(experiment.duration_seconds));
    status.failure_window = Some(failure_window(experiment.duration_seconds));
    Ok(())
}

/// The service of the first target, or `unknown` where there is no target.
pub fn first_target_service(experiment: &ChaosExperimentSpec) -> (name: String)
    ensures
        name@ == first_target_name(experiment),
{
    if experiment.targets.len() > 0 {
        experiment.targets[0].service.clone()
    } else {
        String::from_str("unknown")
    }
}

/// Copies of both windows, where the status has both.
fn windows_of(status: &ChaosExperimentStatus) -> (r: Option<(String, String)>)
    ensures
        (match (status@.baseline_window, status@.failure_window) {
            (Some(b), Some(f)) => r matches Some(w) && w.0@ == b && w.1@ == f,
            _ => r is None,
        }),
{
    match (&status.baseline_window, &status.failure_window) {
        (Some(b), Some(f)) => Some((b.clone(), f.clone())),
        _ => None,
    }
}

/// Ends a pass because the status has no windows.
fn fail_without_windows() -> (step: (Pass, Request))
    ensures
        forall|status: StatusView| #[trigger] progress_of(step, status) == windows_missing(status),
{
    finish(Err(DomainError::state("windows not computed")))
}

/// Asks for one metric value, over the baseline window or the failure window.
fn fetch(status: &ChaosExperimentStatus, stage: Stage, query: &str, over_baseline: bool) -> (step: (
    Pass,
    Request,
))
    ensures
        progress_of(step, status@) == fetching(status@, stage, query@, over_baseline),
{
    match windows_of(status) {
        Some((b, f)) => wait(
            stage,
            Request::FetchValue {
                query: String::from_str(query),
                window: if over_baseline {
                    b
                } else {
                    f
                },
            },
        ),
        None => fail_without_windows(),
    }
}

/// Finalizing, once the mesh is dealt with.
fn stop_agents_or_measure(experiment: &ChaosExperimentSpec, status: &ChaosExperimentStatus) -> (step:
    (Pass, Request))
    ensures
        progress_of(step, status@) == after_rollback(experiment, status@),
{
    if experiment.mode.is_agent() {
        wait(Stage::Stopping, Request::StopLoad)
    } else {
        fetch(status, Stage::RpsBase, "rps_base", true)
    }
}

/// Begins to finalize an experiment: rolls the mesh fault back if one is
/// applied, else goes on to the agents and the measuring.
pub fn finalize(experiment: &ChaosExperimentSpec, status: &ChaosExperimentStatus) -> (step: (
    Pass,
    Request,
))
    ensures
        progress_of(step, status@) == finalize_spec(experiment, status@),
{
    if experiment.mode.is_mesh() && status.istio_patched {
        wait(Stage::RollingBack, Request::RollbackFault)
    } else {
        stop_agents_or_measure(experiment, status)
    }
}

/// Running, once the agents are dealt with.
fn read_clock_or_finish(status: &ChaosExperimentStatus) -> (step: (Pass, Request))
    ensures
        progress_of(step, status@) == after_start(status@),
{
    if status.ends_at.is_some() {
        wait(Stage::Deadline, Request::Now)
    } else {
        finish(Ok(()))
    }
}

/// Starts the agents' load where the experiment uses agents, else goes on
/// to the clock.
pub fn maybe_start_agents(experiment: &ChaosExperimentSpec, status: &ChaosExperimentStatus) -> (step:
    (Pass, Request))
    ensures
        progress_of(step, status@) == maybe_start_agents_spec(experiment, status@),
{
    if experiment.mode.is_agent() {
        wait(Stage::Starting, Request::StartLoad)
    } else {
        read_clock_or_finish(status)
    }
}

/// Applies the mesh fault where the experiment uses the mesh and none is
/// applied yet, else goes on to the agents.
pub fn maybe_apply_mesh(experiment: &ChaosExperimentSpec, status: &ChaosExperimentStatus) -> (step:
    (Pass, Request))
    ensures
        progress_of(step, status@) == maybe_apply_mesh_spec(experiment, status@),
{
    if experiment.mode.is_mesh() && !status.istio_patched {
        wait(Stage::Applying, Request::ApplyFault)
    } else {
        maybe_start_agents(experiment, status)
    }
}

/// Begins a reconciliation pass: says what the phase of the status asks for first.
pub fn reconcile(experiment: &ChaosExperimentSpec, status: &ChaosExperimentStatus) -> (step: (
    Pass,
    Request,
))
    ensures
        progress_of(step, status@) == reconcile_spec(experiment, status@),
{
    match status.phase {
        Phase::Pending => match validate_spec(experiment) {
            Err(e) => finish(Err(e)),
            Ok(_) => wait(Stage::StartTime, Request::Now),
        },
        Phase::Running => maybe_apply_mesh(experiment, status),
        Phase::Stopping => finalize(experiment, status),
        Phase::Completed | Phase::Error => finish(Ok(())),
    }
}

/// Puts the report of an experiment together.
pub fn assemble_report(
    experiment: &ChaosExperimentSpec,
    exp_ref: &ExperimentRef,
    baseline: String,
    failure: String,
    samples: Samples,
    impact: Measurement,
    edges: Vec<Edge>,
) -> (report: ChaosReport)
    ensures
        report@ == report_of(
            experiment,
            exp_ref@,
            baseline@,
            failure@,
            samples,
            impact,
            edges_view(edges@),
        ),
{
    let nodes = collect_nodes(edges.as_slice());
    let result = ServiceResult {
        name: first_target_service(experiment),
        rps_base: samples.rps_base,
        rps_fail: samples.rps_fail,
        p95_base_ms: samples.p95_base_ms,
        p95_fail_ms: samples.p95_fail_ms,
        impact_score: impact,
    };
    let mut results: Vec<ServiceResult> = Vec::new();
    results.push(result);
    let report = ChaosReport {
        experiment_ref: exp_ref.duplicate(),
        windows: Windows { baseline, failure },
        results,
        topology: Topology { nodes, edges },
        artifacts: Artifacts { json: String::from_str("{}") },
    };
    assert(report@.results =~= seq![result@]);
    report
}

/// Records that the experiment has left `Pending` at the instant `now`.
fn start(experiment: &ChaosExperimentSpec, status: &mut ChaosExperimentStatus, now: Timestamp)
    requires
        now.can_advance(experiment.duration_seconds),
    ensures
        final(status)@ == started(experiment, old(status)@, now),
{
    let _ = compute_windows(experiment, status);
    status.started_at = Some(now);
    status.ends_at = now.checked_add_seconds(experiment.duration_seconds);
    status.phase = Phase::Running;
}

impl Pass {
    /// Whether this pass, handed `reply`, has to add the duration of the
    /// experiment to the time in the reply.
    pub open spec fn adds_duration_to(self, reply: ReplyView) -> bool {
        self.stage is StartTime && reply is Now
    }

    /// Takes the reply to the request that is outstanding and says what to
    /// do next. A failed call ends the pass with the call's error, but for
    /// the lookup of edges, whose failure counts as no edges. A reply to
    /// another request than the outstanding one ends the pass with a state
    /// error.
    pub fn resume(
        self,
        experiment: &ChaosExperimentSpec,
        status: &mut ChaosExperimentStatus,
        exp_ref: &ExperimentRef,
        reply: Reply,
    ) -> (step: (Pass, Request))
        requires
            self.adds_duration_to(reply@) ==> reply@->Now_0.can_advance(
                experiment.duration_seconds,
            ),
        ensures
            progress_of(step, final(status)@) == resume_spec(
                experiment,
                exp_ref@,
                self.stage,
                old(status)@,
                reply@,
            ),
    {
        match (self.stage, reply) {
            (Stage::StartTime, Reply::Now(now)) => {
                start(experiment, status, now);
                finish(Ok(()))
            },
            (Stage::Applying, Reply::Done(outcome)) => match outcome {
                Ok(_) => {
                    status.istio_patched = true;
                    maybe_start_agents(experiment, status)
                },
                Err(e) => finish(Err(e)),
            },
            (Stage::Starting, Reply::Done(outcome)) => match outcome {
                Ok(_) => read_clock_or_finish(status),
                Err(e) => finish(Err(e)),
            },
            (Stage::Deadline, Reply::Now(now)) => match status.ends_at {
                Some(end) => if now.is_at_or_after(&end) {
                    finalize(experiment, status)
                } else {
                    finish(Ok(()))
                },
                None => finish(Ok(())),
            },
            (Stage::RollingBack, Reply::Done(outcome)) => match outcome {
                Ok(_) => {
                    status.istio_patched = false;
                    stop_agents_or_measure(experiment, status)
                },
                Err(e) => finish(Err(e)),
            },
            (Stage::Stopping, Reply::Done(outcome)) => match outcome {
                Ok(_) => fetch(status, Stage::RpsBase, "rps_base", true),
                Err(e) => finish(Err(e)),
            },
            (Stage::RpsBase, Reply::Value(Ok(v))) => fetch(
                status,
                Stage::RpsFail { rps_base: v },
                "rps_fail",
                false,
            ),
            (Stage::RpsFail { rps_base }, Reply::Value(Ok(v))) => fetch(
                status,
                Stage::P95Base { rps_base, rps_fail: v },
                "p95_base",
                true,
            ),
            (Stage::P95Base { rps_base, rps_fail }, Reply::Value(Ok(v))) => fetch(
                status,
                Stage::P95Fail { rps_base, rps_fail, p95_base_ms: v },
                "p95_fail",
                false,
            ),
            (Stage::P95Fail { rps_base, rps_fail, p95_base_ms }, Reply::Value(Ok(v))) => {
                let samples = Samples { rps_base, rps_fail, p95_base_ms, p95_fail_ms: v };
                match check_baselines(rps_base, p95_base_ms) {
                    Err(e) => finish(Err(e)),
                    Ok(_) => wait(Stage::Scoring { samples }, Request::Impact { samples }),
                }
            },
            (Stage::RpsBase, Reply::Value(Err(e))) => finish(Err(e)),
            (Stage::RpsFail { .. }, Reply::Value(Err(e))) => finish(Err(e)),
            (Stage::P95Base { .. }, Reply::Value(Err(e))) => finish(Err(e)),
            (Stage::P95Fail { .. }, Reply::Value(Err(e))) => finish(Err(e)),
            (Stage::Scoring { samples }, Reply::Impact(impact)) => match windows_of(status) {
                Some((_, f)) => wait(
                    Stage::Tracing { samples, impact },
                    Request::FetchEdges { window: f },
                ),
                None => fail_without_windows(),
            },
            (Stage::Tracing { samples, impact }, Reply::Edges(found)) => match windows_of(status) {
                Some((b, f)) => {
                    let edges = match found {
                        Ok(edges) => edges,
                        Err(_) => Vec::new(),
                    };
                    assert(edges_view(edges@) =~= edges_or_none(reply@->Edges_0));
                    let report = assemble_report(experiment, exp_ref, b, f, samples, impact, edges);
                    wait(Stage::Storing, Request::StoreReport { report })
                },
                None => fail_without_windows(),
            },
            (Stage::Storing, Reply::Done(outcome)) => match outcome {
                Ok(_) => {
                    status.phase = Phase::Completed;
                    finish(Ok(()))
                },
                Err(e) => finish(Err(e)),
            },
            _ => finish(Err(DomainError::state("reply does not answer the request"))),
        }
    }
}

} // verus!
