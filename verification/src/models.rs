//! The data model: experiment specification, status record and report.

use crate::measure::Measurement;
use crate::time::Timestamp;
use std::collections::HashMap;
use vstd::prelude::*;

verus! {

/// An arbitrary JSON document, carried through untouched.
#[verifier::external_type_specification]
#[verifier::external_body]
pub struct ExJsonValue(serde_json::Value);

/// ChaosExperiment.spec
#[derive(Debug, Clone, PartialEq, Eq)]
pub struct ChaosExperimentSpec {
    pub targets: Vec<Target>,
    pub mode: Mode,
    pub duration_seconds: u32,
    pub load_profile: LoadProfile,
    pub mesh_fault: Option<MeshFault>,
    pub agent_fault: Option<AgentFault>,
    pub labels: HashMap<String, String>,
}

/// Target service selection
#[derive(Debug, Clone, PartialEq, Eq)]
pub struct Target {
    pub service: String,
    pub match_: Option<Match>,
}

/// HTTP match rules
#[derive(Debug, Clone, PartialEq, Eq)]
pub struct Match {
    pub http: Option<Vec<HttpMatch>>,
}

/// HTTP prefix
#[derive(Debug, Clone, PartialEq, Eq)]
pub struct HttpMatch {
    pub prefix: Option<String>,
}

/// Experiment mode
#[derive(Debug, Clone, Copy, PartialEq, Eq)]
pub enum Mode {
    Agent,
    Mesh,
    Mixed,
}

impl Mode {
    /// Whether the experiment injects its fault through the service mesh.
    pub open spec fn uses_mesh(self) -> bool {
        self is Mesh || self is Mixed
    }

    /// Whether the experiment drives load through the agents.
    pub open spec fn uses_agents(self) -> bool {
        self is Agent || self is Mixed
    }

    /// Tells whether the experiment injects its fault through the service mesh.
    pub fn is_mesh(&self) -> (r: bool)
        ensures
            r == self.uses_mesh(),
    {
        match self {
            Mode::Mesh | Mode::Mixed => true,
            Mode::Agent => false,
        }
    }

    /// Tells whether the experiment drives load through the agents.
    pub fn is_agent(&self) -> (r: bool)
        ensures
            r == self.uses_agents(),
    {
        match self {
            Mode::Agent | Mode::Mixed => true,
            Mode::Mesh => false,
        }
    }
}

/// Load profile
#[derive(Debug, Clone, PartialEq, Eq)]
pub struct LoadProfile {
    pub type_: String,
    pub rps: Option<u32>,
    pub connections: Option<u32>,
}

/// Mesh-level fault injection
#[derive(Debug, Clone, PartialEq, Eq)]
pub struct MeshFault {
    pub delay_ms: Option<u32>,
    pub delay_percent: Option<u8>,
    pub abort_http: Option<u16>,
    pub abort_percent: Option<u8>,
}

/// Agent fault parameters
#[derive(Debug, Clone, PartialEq, Eq)]
pub struct AgentFault {
    pub timeout_ms: Option<u32>,
    pub jitter_ms: Option<u32>,
    pub packet_loss_percent: Option<u8>,
}

/// ChaosExperiment.status
#[derive(Debug, Clone, PartialEq)]
pub struct ChaosExperimentStatus {
    pub phase: Phase,
    pub started_at: Option<Timestamp>,
    pub ends_at: Option<Timestamp>,
    pub baseline_window: Option<String>,
    pub failure_window: Option<String>,
    pub istio_patched: bool,
    pub snapshot: Option<Snapshot>,
}

/// Experiment phase
#[derive(Debug, Clone, Copy, PartialEq, Eq)]
pub enum Phase {
    Pending,
    Running,
    Stopping,
    Completed,
    Error,
}

impl Phase {
    /// A phase that no reconciliation leaves.
    pub open spec fn terminal(self) -> bool {
        self is Completed || self is Error
    }
}

/// Snapshot of original objects
#[derive(Debug, Clone, PartialEq)]
pub struct Snapshot {
    pub virtual_service_original: Option<serde_json::Value>,
}

/// Mathematical model of a [`ChaosExperimentStatus`]: the windows are
/// sequences of characters, the rest is as in the record.
pub struct StatusView {
    pub phase: Phase,
    pub started_at: Option<Timestamp>,
    pub ends_at: Option<Timestamp>,
    pub baseline_window: Option<Seq<char>>,
    pub failure_window: Option<Seq<char>>,
    pub istio_patched: bool,
    pub snapshot: Option<Snapshot>,
}

/// The characters of an optional string.
pub open spec fn text_of(s: Option<String>) -> Option<Seq<char>> {
    match s {
        Some(t) => Some(t@),
        None => None,
    }
}

impl View for ChaosExperimentStatus {
    type V = StatusView;

    open spec fn view(&self) -> StatusView {
        StatusView {
            phase: self.phase,
            started_at: self.started_at,
            ends_at: self.ends_at,
            baseline_window: text_of(self.baseline_window),
            failure_window: text_of(self.failure_window),
            istio_patched: self.istio_patched,
            snapshot: self.snapshot,
        }
    }
}

impl ChaosExperimentStatus {
    /// The status of an experiment that nothing has happened to yet.
    pub fn pending() -> (s: Self)
        ensures
            s@ == (StatusView {
                phase: Phase::Pending,
                started_at: None,
                ends_at: None,
                baseline_window: None,
                failure_window: None,
                istio_patched: false,
                snapshot: None,
            }),
    {
        ChaosExperimentStatus {
            phase: Phase::Pending,
            started_at: None,
            ends_at: None,
            baseline_window: None,
            failure_window: None,
            istio_patched: false,
            snapshot: None,
        }
    }
}

/// Call graph edge
#[derive(Debug, Clone, PartialEq, Eq)]
pub struct Edge {
    pub from: String,
    pub to: String,
}

/// Mathematical model of an [`Edge`].
pub struct EdgeView {
    pub from: Seq<char>,
    pub to: Seq<char>,
}

impl View for Edge {
    type V = EdgeView;

    open spec fn view(&self) -> EdgeView {
        EdgeView { from: self.from@, to: self.to@ }
    }
}

/// The models of a sequence of edges, in order.
pub open spec fn edges_view(edges: Seq<Edge>) -> Seq<EdgeView> {
    Seq::new(edges.len(), |i: int| edges[i]@)
}

/// The characters of each of a sequence of strings, in order.
pub open spec fn strings_view(strings: Seq<String>) -> Seq<Seq<char>> {
    Seq::new(strings.len(), |i: int| strings[i]@)
}

/// Reference to experiment
#[derive(Debug, Clone, PartialEq, Eq)]
pub struct ExperimentRef {
    pub namespace: String,
    pub name: String,
}

/// Mathematical model of an [`ExperimentRef`].
pub struct ExperimentRefView {
    pub namespace: Seq<char>,
    pub name: Seq<char>,
}

impl View for ExperimentRef {
    type V = ExperimentRefView;

    open spec fn view(&self) -> ExperimentRefView {
        ExperimentRefView { namespace: self.namespace@, name: self.name@ }
    }
}

impl ExperimentRef {
    /// A copy of the reference.
    pub fn duplicate(&self) -> (r: Self)
        ensures
            r@ == self@,
    {
        ExperimentRef { namespace: self.namespace.clone(), name: self.name.clone() }
    }
}

/// Observation windows
#[derive(Debug, Clone, PartialEq, Eq)]
pub struct Windows {
    pub baseline: String,
    pub failure: String,
}

/// Mathematical model of [`Windows`].
pub struct WindowsView {
    pub baseline: Seq<char>,
    pub failure: Seq<char>,
}

impl View for Windows {
    type V = WindowsView;

    open spec fn view(&self) -> WindowsView {
        WindowsView { baseline: self.baseline@, failure: self.failure@ }
    }
}

/// Per-service results
#[derive(Debug, Clone, PartialEq)]
pub struct ServiceResult {
    pub name: String,
    pub rps_base: Measurement,
    pub rps_fail: Measurement,
    pub p95_base_ms: Measurement,
    pub p95_fail_ms: Measurement,
    pub impact_score: Measurement,
}

/// Mathematical model of a [`ServiceResult`].
pub struct ServiceResultView {
    pub name: Seq<char>,
    pub rps_base: Measurement,
    pub rps_fail: Measurement,
    pub p95_base_ms: Measurement,
    pub p95_fail_ms: Measurement,
    pub impact_score: Measurement,
}

impl View for ServiceResult {
    type V = ServiceResultView;

    open spec fn view(&self) -> ServiceResultView {
        ServiceResultView {
            name: self.name@,
            rps_base: self.rps_base,
            rps_fail: self.rps_fail,
            p95_base_ms: self.p95_base_ms,
            p95_fail_ms: self.p95_fail_ms,
            impact_score: self.impact_score,
        }
    }
}

/// The models of a sequence of results, in order.
pub open spec fn results_view(results: Seq<ServiceResult>) -> Seq<ServiceResultView> {
    Seq::new(results.len(), |i: int| results[i]@)
}

/// Topology
#[derive(Debug, Clone, PartialEq, Eq)]
pub struct Topology {
    pub nodes: Vec<String>,
    pub edges: Vec<Edge>,
}

/// Mathematical model of a [`Topology`].
pub struct TopologyView {
    pub nodes: Seq<Seq<char>>,
    pub edges: Seq<EdgeView>,
}

impl View for Topology {
    type V = TopologyView;

    open spec fn view(&self) -> TopologyView {
        TopologyView { nodes: strings_view(self.nodes@), edges: edges_view(self.edges@) }
    }
}

/// Extra artifacts
#[derive(Debug, Clone, PartialEq, Eq)]
pub struct Artifacts {
    pub json: String,
}

/// ChaosReport
#[derive(Debug, Clone, PartialEq)]
pub struct ChaosReport {
    pub experiment_ref: ExperimentRef,
    pub windows: Windows,
    pub results: Vec<ServiceResult>,
    pub topology: Topology,
    pub artifacts: Artifacts,
}

/// Mathematical model of a [`ChaosReport`].
pub struct ChaosReportView {
    pub experiment_ref: ExperimentRefView,
    pub windows: WindowsView,
    pub results: Seq<ServiceResultView>,
    pub topology: TopologyView,
    pub artifacts: Seq<char>,
}

impl View for ChaosReport {
    type V = ChaosReportView;

    open spec fn view(&self) -> ChaosReportView {
        ChaosReportView {
            experiment_ref: self.experiment_ref@,
            windows: self.windows@,
            results: results_view(self.results@),
            topology: self.topology@,
            artifacts: self.artifacts.json@,
        }
    }
}

/// `<serde_json::Value as Clone>::clone`: the copy is the same document.
#[verifier::external_body]
fn copy_json(value: &serde_json::Value) -> (copy: serde_json::Value)
    ensures
        copy == *value,
{
    value.clone()
}

impl Snapshot {
    /// A copy of the snapshot.
    pub fn duplicate(&self) -> (copy: Self)
        ensures
            copy == *self,
    {
        Snapshot {
            virtual_service_original: match &self.virtual_service_original {
                Some(value) => Some(copy_json(value)),
                None => None,
            },
        }
    }
}

/// A copy of an optional string.
fn copy_text(text: &Option<String>) -> (copy: Option<String>)
    ensures
        text_of(copy) == text_of(*text),
{
    match text {
        Some(t) => Some(t.clone()),
        None => None,
    }
}

impl ChaosExperimentStatus {
    /// A copy of the status.
    pub fn duplicate(&self) -> (copy: Self)
        ensures
            copy@ == self@,
    {
        ChaosExperimentStatus {
            phase: self.phase,
            started_at: self.started_at,
            ends_at: self.ends_at,
            baseline_window: copy_text(&self.baseline_window),
            failure_window: copy_text(&self.failure_window),
            istio_patched: self.istio_patched,
            snapshot: match &self.snapshot {
                Some(s) => Some(s.duplicate()),
                None => None,
            },
        }
    }
}

impl Edge {
    /// A copy of the edge.
    pub fn duplicate(&self) -> (copy: Self)
        ensures
            copy@ == self@,
    {
        Edge { from: self.from.clone(), to: self.to.clone() }
    }
}

impl ServiceResult {
    /// A copy of the result.
    pub fn duplicate(&self) -> (copy: Self)
        ensures
            copy@ == self@,
    {
        ServiceResult {
            name: self.name.clone(),
            rps_base: self.rps_base,
            rps_fail: self.rps_fail,
            p95_base_ms: self.p95_base_ms,
            p95_fail_ms: self.p95_fail_ms,
            impact_score: self.impact_score,
        }
    }
}

/// Copies of the strings, in order.
fn copy_strings(strings: &Vec<String>) -> (copy: Vec<String>)
    ensures
        strings_view(copy@) == strings_view(strings@),
{
    let mut copy: Vec<String> = Vec::new();
    let mut i: usize = 0;
    while i < strings.len()
        invariant
            i <= strings.len(),
            copy@.len() == i,
            forall|k: int| 0 <= k < i ==> copy@[k]@ == strings@[k]@,
        decreases strings.len() - i,
    {
        copy.push(strings[i].clone());
        i += 1;
    }
    assert(strings_view(copy@) =~= strings_view(strings@));
    copy
}

/// Copies of the edges, in order.
fn copy_edges(edges: &Vec<Edge>) -> (copy: Vec<Edge>)
    ensures
        edges_view(copy@) == edges_view(edges@),
{
    let mut copy: Vec<Edge> = Vec::new();
    let mut i: usize = 0;
    while i < edges.len()
        invariant
            i <= edges.len(),
            copy@.len() == i,
            forall|k: int| 0 <= k < i ==> copy@[k]@ == edges@[k]@,
        decreases edges.len() - i,
    {
        copy.push(edges[i].duplicate());
        i += 1;
    }
    assert(edges_view(copy@) =~= edges_view(edges@));
    copy
}

/// Copies of the results, in order.
fn copy_results(results: &Vec<ServiceResult>) -> (copy: Vec<ServiceResult>)
    ensures
        results_view(copy@) == results_view(results@),
{
    let mut copy: Vec<ServiceResult> = Vec::new();
    let mut i: usize = 0;
    while i < results.len()
        invariant
            i <= results.len(),
            copy@.len() == i,
            forall|k: int| 0 <= k < i ==> copy@[k]@ == results@[k]@,
        decreases results.len() - i,
    {
        copy.push(results[i].duplicate());
        i += 1;
    }
    assert(results_view(copy@) =~= results_view(results@));
    copy
}

impl ChaosReport {
    /// A copy of the report.
    pub fn duplicate(&self) -> (copy: Self)
        ensures
            copy@ == self@,
    {
        ChaosReport {
            experiment_ref: self.experiment_ref.duplicate(),
            windows: Windows {
                baseline: self.windows.baseline.clone(),
                failure: self.windows.failure.clone(),
            },
            results: copy_results(&self.results),
            topology: Topology {
                nodes: copy_strings(&self.topology.nodes),
                edges: copy_edges(&self.topology.edges),
            },
            artifacts: Artifacts { json: self.artifacts.json.clone() },
        }
    }
}

} // verus!
