//! What each endpoint of the caller-facing API answers, before the answer
//! is put on the wire: the endpoints read and write the store of statuses
//! and reports.

use crate::models::{
    results_view, strings_view, edges_view, Artifacts, ChaosExperimentSpec, ChaosExperimentStatus,
    ChaosReport, ChaosReportView, Edge, ExperimentRef, ExperimentRefView, LoadProfile, Mode,
    Phase, ServiceResult, StatusView, Target, Topology, TopologyView, Windows, WindowsView,
};
use crate::state::SharedState;
use std::collections::HashMap;
use vstd::prelude::*;
use vstd::string::StringExecFns;

verus! {

/// The answer of an endpoint.
#[derive(Debug, PartialEq)]
pub enum Response {
    /// Success, with nothing to say.
    Empty,
    /// Success, with a plain text.
    Text(String),
    /// Success, with a text that is a JSON document.
    Json(String),
    /// Success, with a status, to be written as a JSON document.
    Status(ChaosExperimentStatus),
    /// Success, with a report, to be written as a JSON document.
    Report(ChaosReport),
    /// There is no such thing.
    NotFound,
}

/// Mathematical model of a [`Response`].
pub enum ResponseView {
    Empty,
    Text(Seq<char>),
    Json(Seq<char>),
    Status(StatusView),
    Report(ChaosReportView),
    NotFound,
}

impl View for Response {
    type V = ResponseView;

    open spec fn view(&self) -> ResponseView {
        match self {
            Response::Empty => ResponseView::Empty,
            Response::Text(t) => ResponseView::Text(t@),
            Response::Json(t) => ResponseView::Json(t@),
            Response::Status(s) => ResponseView::Status(s@),
            Response::Report(r) => ResponseView::Report(r@),
            Response::NotFound => ResponseView::NotFound,
        }
    }
}

impl Response {
    /// The HTTP status code that goes with the answer.
    pub open spec fn code(self) -> nat {
        if self is NotFound {
            404
        } else {
            200
        }
    }

    /// Tells the HTTP status code that goes with the answer.
    pub fn status_code(&self) -> (code: u16)
        ensures
            code == self.code(),
    {
        match self {
            Response::NotFound => 404,
            _ => 200,
        }
    }
}

/// The status of an experiment that nothing is known of.
pub open spec fn pending_status() -> StatusView {
    StatusView {
        phase: Phase::Pending,
        started_at: None,
        ends_at: None,
        baseline_window: None,
        failure_window: None,
        istio_patched: false,
        snapshot: None,
    }
}

/// The status that applying an experiment records.
pub open spec fn applied_status() -> StatusView {
    StatusView { phase: Phase::Running, ..pending_status() }
}

/// The report that stands in for an experiment's report until it has one
/// of its own.
pub open spec fn placeholder_report(ns: Seq<char>, name: Seq<char>) -> ChaosReportView {
    ChaosReportView {
        experiment_ref: ExperimentRefView { namespace: ns, name },
        windows: WindowsView { baseline: "b"@, failure: "f"@ },
        results: Seq::empty(),
        topology: TopologyView { nodes: Seq::empty(), edges: Seq::empty() },
        artifacts: "{}"@,
    }
}

/// Liveness: always `ok`.
pub fn healthz() -> (answer: Response)
    ensures
        answer@ == ResponseView::Text("ok"@),
{
    Response::Text(String::from_str("ok"))
}

/// The status of an experiment: what the store holds, or a pending status
/// where it holds nothing.
pub fn status(ns: &str, name: &str, state: &SharedState) -> (answer: Response)
    ensures
        answer@ == ResponseView::Status(
            match state.status_of((ns@, name@)) {
                Some(s) => s,
                None => pending_status(),
            },
        ),
{
    match state.get_status(ns, name) {
        Some(current) => Response::Status(current),
        None => Response::Status(ChaosExperimentStatus::pending()),
    }
}

/// The report of an experiment, or not found where the store holds none.
pub fn report(ns: &str, name: &str, state: &SharedState) -> (answer: Response)
    ensures
        answer@ == (match state.report_of((ns@, name@)) {
            Some(r) => ResponseView::Report(r),
            None => ResponseView::NotFound,
        }),
{
    match state.get_report(ns, name) {
        Some(found) => Response::Report(found),
        None => Response::NotFound,
    }
}

/// The request to stop an experiment is acknowledged; nothing else happens.
pub fn stop(ns: &str, name: &str, state: &SharedState) -> (answer: Response)
    ensures
        answer@ == ResponseView::Json("{\"stopped\":true}"@),
{
    Response::Json(String::from_str("{\"stopped\":true}"))
}

/// Applies an experiment: its status is recorded as running, with nothing
/// else known of it.
pub fn apply_experiment(ns: &str, name: &str, state: &mut SharedState) -> (answer: Response)
    ensures
        answer@ == ResponseView::Empty,
        final(state).status_of((ns@, name@)) == Some(applied_status()),
        forall|key: (Seq<char>, Seq<char>)|
            key != (ns@, name@) ==> final(state).status_of(key) == old(state).status_of(key),
        forall|key: (Seq<char>, Seq<char>)|
            final(state).report_of(key) == old(state).report_of(key),
{
    let mut applied = ChaosExperimentStatus::pending();
    applied.phase = Phase::Running;
    state.set_status(ns, name, applied);
    Response::Empty
}

/// Records a placeholder report for an experiment.
pub fn create_report(ns: &str, name: &str, state: &mut SharedState) -> (answer: Response)
    ensures
        answer@ == ResponseView::Empty,
        final(state).report_of((ns@, name@)) == Some(placeholder_report(ns@, name@)),
        forall|key: (Seq<char>, Seq<char>)|
            key != (ns@, name@) ==> final(state).report_of(key) == old(state).report_of(key),
        forall|key: (Seq<char>, Seq<char>)|
            final(state).status_of(key) == old(state).status_of(key),
{
    let results: Vec<ServiceResult> = Vec::new();
    let nodes: Vec<String> = Vec::new();
    let edges: Vec<Edge> = Vec::new();
    let chaos_report = ChaosReport {
        experiment_ref: ExperimentRef {
            namespace: String::from_str(ns),
            name: String::from_str(name),
        },
        windows: Windows { baseline: String::from_str("b"), failure: String::from_str("f") },
        results,
        topology: Topology { nodes, edges },
        artifacts: Artifacts { json: String::from_str("{}") },
    };
    assert(results_view(chaos_report.results@) =~= Seq::empty());
    assert(strings_view(chaos_report.topology.nodes@) =~= Seq::empty());
    assert(edges_view(chaos_report.topology.edges@) =~= Seq::empty());
    state.set_report(ns, name, chaos_report);
    Response::Empty
}

/// The experiment that the run endpoint runs against the service `name`:
/// one target, through the mesh, for one second, with no load.
pub fn default_experiment(name: &str) -> (experiment: ChaosExperimentSpec)
    ensures
        experiment.targets@.len() == 1,
        experiment.targets@[0].service@ == name@,
        experiment.targets@[0].match_ is None,
        experiment.mode is Mesh,
        experiment.duration_seconds == 1,
        experiment.load_profile.type_@ == "none"@,
        experiment.load_profile.rps is None,
        experiment.load_profile.connections is None,
        experiment.mesh_fault is None,
        experiment.agent_fault is None,
        experiment.labels@.len() == 0,
{
    let mut targets: Vec<Target> = Vec::new();
    targets.push(Target { service: String::from_str(name), match_: None });
    ChaosExperimentSpec {
        targets,
        mode: Mode::Mesh,
        duration_seconds: 1,
        load_profile: LoadProfile { type_: String::from_str("none"), rps: None, connections: None },
        mesh_fault: None,
        agent_fault: None,
        labels: HashMap::new(),
    }
}

/// Records the status that a run has left an experiment in.
pub fn run_experiment(
    ns: &str,
    name: &str,
    state: &mut SharedState,
    exp_status: ChaosExperimentStatus,
) -> (answer: Response)
    ensures
        answer@ == ResponseView::Empty,
        final(state).status_of((ns@, name@)) == Some(exp_status@),
        forall|key: (Seq<char>, Seq<char>)|
            key != (ns@, name@) ==> final(state).status_of(key) == old(state).status_of(key),
        forall|key: (Seq<char>, Seq<char>)|
            final(state).report_of(key) == old(state).report_of(key),
{
    state.set_status(ns, name, exp_status);
    Response::Empty
}

} // verus!
