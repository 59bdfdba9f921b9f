use chaos_operator::engine::{
    assemble_report, baseline_window, check_baselines, compute_windows, failure_window, finalize,
    first_target_service, maybe_apply_mesh, maybe_start_agents, reconcile, validate_spec, Pass,
    Reply, Request, Samples, Stage,
};
use chaos_operator::errors::DomainError;
use chaos_operator::measure::Measurement;
use chaos_operator::models::{
    ChaosExperimentSpec, ChaosExperimentStatus, ChaosReport, Edge, ExperimentRef, LoadProfile,
    Mode, Phase, Target,
};
use chaos_operator::time::Timestamp;
use std::collections::HashMap;

/// An outside world for the engine: every port is a fake that counts its
/// calls and fails on demand.
struct World {
    now: Timestamp,
    metric: f64,
    edges: Vec<Edge>,
    fail_apply: bool,
    fail_rollback: bool,
    fail_start: bool,
    fail_stop: bool,
    fail_metric: Option<String>,
    fail_edges: bool,
    fail_store: bool,
    applied: u32,
    rolled_back: u32,
    started: u32,
    stopped: u32,
    clock_reads: u32,
    queries: Vec<(String, String)>,
    edge_windows: Vec<String>,
    stored: Vec<ChaosReport>,
}

fn world(metric: f64) -> World {
    World {
        now: Timestamp { secs: 1_700_000_000, nanos: 0 },
        metric,
        edges: Vec::new(),
        fail_apply: false,
        fail_rollback: false,
        fail_start: false,
        fail_stop: false,
        fail_metric: None,
        fail_edges: false,
        fail_store: false,
        applied: 0,
        rolled_back: 0,
        started: 0,
        stopped: 0,
        clock_reads: 0,
        queries: Vec::new(),
        edge_windows: Vec::new(),
        stored: Vec::new(),
    }
}

fn measured(x: f64) -> Measurement {
    Measurement::from_bits(x.to_bits())
}

fn number(m: Measurement) -> f64 {
    f64::from_bits(m.to_bits())
}

fn impact(s: Samples) -> Measurement {
    let rps_part = ((number(s.rps_base) - number(s.rps_fail)) / number(s.rps_base)) * 100.0;
    let lat_part =
        ((number(s.p95_fail_ms) - number(s.p95_base_ms)) / number(s.p95_base_ms)) * 100.0;
    measured(rps_part + lat_part)
}

fn outcome(failed: bool, what: &str) -> Result<(), DomainError> {
    if failed {
        Err(DomainError::capability(what))
    } else {
        Ok(())
    }
}

fn answer(w: &mut World, request: Request) -> Reply {
    match request {
        Request::Now => {
            w.clock_reads += 1;
            Reply::Now(w.now)
        }
        Request::ApplyFault => {
            w.applied += 1;
            Reply::Done(outcome(w.fail_apply, "apply failed"))
        }
        Request::StartLoad => {
            w.started += 1;
            Reply::Done(outcome(w.fail_start, "start failed"))
        }
        Request::RollbackFault => {
            w.rolled_back += 1;
            Reply::Done(outcome(w.fail_rollback, "rollback failed"))
        }
        Request::StopLoad => {
            w.stopped += 1;
            Reply::Done(outcome(w.fail_stop, "stop failed"))
        }
        Request::FetchValue { query, window } => {
            let failing = w.fail_metric.as_deref() == Some(query.as_str());
            w.queries.push((query, window));
            if failing {
                Reply::Value(Err(DomainError::capability("metrics failed")))
            } else {
                Reply::Value(Ok(measured(w.metric)))
            }
        }
        Request::Impact { samples } => Reply::Impact(impact(samples)),
        Request::FetchEdges { window } => {
            w.edge_windows.push(window);
            if w.fail_edges {
                Reply::Edges(Err(DomainError::capability("traces failed")))
            } else {
                Reply::Edges(Ok(w.edges.clone()))
            }
        }
        Request::StoreReport { report } => {
            if w.fail_store {
                Reply::Done(Err(DomainError::capability("store failed")))
            } else {
                w.stored.push(report);
                Reply::Done(Ok(()))
            }
        }
        Request::Finished { .. } => unreachable!(),
    }
}

fn drive(
    w: &mut World,
    first: (Pass, Request),
    spec: &ChaosExperimentSpec,
    status: &mut ChaosExperimentStatus,
    exp_ref: &ExperimentRef,
) -> Result<(), DomainError> {
    let (mut pass, mut request) = first;
    let mut steps: u32 = 0;
    loop {
        if let Request::Finished { result } = request {
            assert_eq!(pass.stage, Stage::Finished);
            return result;
        }
        steps += 1;
        assert!(steps <= 12);
        let reply = answer(w, request);
        let next = pass.resume(spec, status, exp_ref, reply);
        pass = next.0;
        request = next.1;
    }
}

fn run_pass(
    w: &mut World,
    spec: &ChaosExperimentSpec,
    status: &mut ChaosExperimentStatus,
    exp_ref: &ExperimentRef,
) -> Result<(), DomainError> {
    let first = reconcile(spec, status);
    drive(w, first, spec, status, exp_ref)
}

fn run_finalize(
    w: &mut World,
    spec: &ChaosExperimentSpec,
    status: &mut ChaosExperimentStatus,
    exp_ref: &ExperimentRef,
) -> Result<(), DomainError> {
    let first = finalize(spec, status);
    drive(w, first, spec, status, exp_ref)
}

fn spec_with(mode: Mode, duration_seconds: u32, services: &[&str]) -> ChaosExperimentSpec {
    ChaosExperimentSpec {
        targets: services
            .iter()
            .map(|s| Target { service: s.to_string(), match_: None })
            .collect(),
        mode,
        duration_seconds,
        load_profile: LoadProfile { type_: "none".into(), rps: None, connections: None },
        mesh_fault: None,
        agent_fault: None,
        labels: HashMap::new(),
    }
}

fn fresh() -> ChaosExperimentStatus {
    ChaosExperimentStatus {
        phase: Phase::Pending,
        started_at: None,
        ends_at: None,
        baseline_window: None,
        failure_window: None,
        istio_patched: false,
        snapshot: None,
    }
}

fn stopping(patched: bool) -> ChaosExperimentStatus {
    ChaosExperimentStatus {
        phase: Phase::Stopping,
        started_at: Some(Timestamp { secs: 1_700_000_000, nanos: 0 }),
        ends_at: Some(Timestamp { secs: 1_700_000_001, nanos: 0 }),
        baseline_window: Some("now-2s_to_now-1s".to_string()),
        failure_window: Some("now_to_now+1s".to_string()),
        istio_patched: patched,
        snapshot: None,
    }
}

fn the_ref() -> ExperimentRef {
    ExperimentRef { namespace: "ns".into(), name: "name".into() }
}

fn edge(from: &str, to: &str) -> Edge {
    Edge { from: from.to_string(), to: to.to_string() }
}

#[test]
fn smoke() {
    assert!(true);
}

#[test]
fn create_minimal_spec() {
    let spec = ChaosExperimentSpec {
        targets: vec![Target { service: "svc".to_string(), match_: None }],
        mode: Mode::Mesh,
        duration_seconds: 1,
        load_profile: LoadProfile { type_: "none".to_string(), rps: None, connections: None },
        mesh_fault: None,
        agent_fault: None,
        labels: HashMap::new(),
    };
    assert_eq!(spec.targets.len(), 1);
}

#[test]
fn impact_score_positive() {
    let samples = Samples {
        rps_base: measured(100.0),
        rps_fail: measured(50.0),
        p95_base_ms: measured(200.0),
        p95_fail_ms: measured(400.0),
    };
    check_baselines(samples.rps_base, samples.p95_base_ms).unwrap();
    let score = number(impact(samples));
    assert!(score > 0.0);
    assert_eq!(score, 150.0);
}

#[test]
fn reconcile_minimal() {
    let mut w = world(100.0);
    let mut status = fresh();
    let spec = spec_with(Mode::Mesh, 1, &["svc"]);
    let exp_ref = the_ref();
    run_pass(&mut w, &spec, &mut status, &exp_ref).unwrap();
    assert!(matches!(status.phase, Phase::Running | Phase::Completed));
}

#[test]
fn reconciler_happy_path() {
    let mut w = world(100.0);
    let mut status = fresh();
    let spec = spec_with(Mode::Mesh, 1, &["svc"]);
    let exp_ref = the_ref();
    run_pass(&mut w, &spec, &mut status, &exp_ref).unwrap();
    assert!(matches!(status.phase, Phase::Running | Phase::Completed));
}

#[test]
fn pending_pass_computes_schedule_and_windows() {
    let mut w = world(100.0);
    w.now = Timestamp { secs: 1_700_000_000, nanos: 123_456_789 };
    let mut status = fresh();
    let spec = spec_with(Mode::Mixed, 90, &["svc"]);
    run_pass(&mut w, &spec, &mut status, &the_ref()).unwrap();
    assert_eq!(status.phase, Phase::Running);
    assert_eq!(status.started_at, Some(Timestamp { secs: 1_700_000_000, nanos: 123_456_789 }));
    assert_eq!(status.ends_at, Some(Timestamp { secs: 1_700_000_090, nanos: 123_456_789 }));
    assert_eq!(status.baseline_window.as_deref(), Some("now-180s_to_now-90s"));
    assert_eq!(status.failure_window.as_deref(), Some("now_to_now+90s"));
    assert!(!status.istio_patched);
    assert_eq!(status.snapshot, None);
    // Leaving `Pending` touches no port but the clock.
    assert_eq!(w.clock_reads, 1);
    assert_eq!(w.applied + w.started + w.rolled_back + w.stopped, 0);
    assert!(w.queries.is_empty() && w.stored.is_empty());
}

#[test]
fn pending_pass_with_one_second_never_ends_in_error() {
    for mode in [Mode::Agent, Mode::Mesh, Mode::Mixed] {
        let mut w = world(100.0);
        let mut status = fresh();
        let spec = spec_with(mode, 1, &["any"]);
        assert_eq!(run_pass(&mut w, &spec, &mut status, &the_ref()), Ok(()));
        assert_eq!(status.phase, Phase::Running);
    }
}

#[test]
fn empty_targets_are_rejected_and_status_stays_pending() {
    let mut w = world(100.0);
    let mut status = fresh();
    let spec = spec_with(Mode::Mesh, 1, &[]);
    let result = run_pass(&mut w, &spec, &mut status, &the_ref());
    assert_eq!(result, Err(DomainError::Validation("targets must not be empty".to_string())));
    assert_eq!(status, fresh());
    assert_eq!(w.clock_reads, 0);
}

#[test]
fn zero_duration_is_rejected_and_status_stays_pending() {
    let mut w = world(100.0);
    let mut status = fresh();
    let spec = spec_with(Mode::Mesh, 0, &["svc"]);
    let result = run_pass(&mut w, &spec, &mut status, &the_ref());
    assert_eq!(result, Err(DomainError::Validation("durationSeconds must be > 0".to_string())));
    assert_eq!(status.phase, Phase::Pending);
    assert_eq!(status, fresh());
}

#[test]
fn validate_spec_reports_targets_before_duration() {
    assert_eq!(
        validate_spec(&spec_with(Mode::Agent, 0, &[])),
        Err(DomainError::Validation("targets must not be empty".to_string()))
    );
    assert_eq!(validate_spec(&spec_with(Mode::Agent, 5, &["a", "b"])), Ok(()));
}

#[test]
fn windows_follow_the_textual_convention() {
    assert_eq!(baseline_window(1), "now-2s_to_now-1s");
    assert_eq!(failure_window(1), "now_to_now+1s");
    assert_eq!(baseline_window(120), "now-240s_to_now-120s");
    assert_eq!(failure_window(120), "now_to_now+120s");
    assert_eq!(baseline_window(0), "now-0s_to_now-0s");
    assert_eq!(baseline_window(u32::MAX), "now-8589934590s_to_now-4294967295s");
    assert_eq!(failure_window(u32::MAX), "now_to_now+4294967295s");
}

#[test]
fn compute_windows_sets_both_and_nothing_else() {
    let mut status = stopping(true);
    status.baseline_window = None;
    status.failure_window = None;
    let spec = spec_with(Mode::Mesh, 7, &["svc"]);
    assert_eq!(compute_windows(&spec, &mut status), Ok(()));
    let mut expected = stopping(true);
    expected.baseline_window = Some("now-14s_to_now-7s".to_string());
    expected.failure_window = Some("now_to_now+7s".to_string());
    assert_eq!(status, expected);
}

#[test]
fn first_target_names_the_report() {
    assert_eq!(first_target_service(&spec_with(Mode::Mesh, 1, &["a", "b"])), "a");
    assert_eq!(first_target_service(&spec_with(Mode::Mesh, 1, &[])), "unknown");
}

#[test]
fn running_pass_before_the_end_applies_once_and_waits() {
    let spec = spec_with(Mode::Mesh, 60, &["svc"]);
    let mut status = fresh();
    let mut w = world(100.0);
    run_pass(&mut w, &spec, &mut status, &the_ref()).unwrap();
    // Two passes while the experiment runs: the fault is applied once.
    w.now = Timestamp { secs: 1_700_000_010, nanos: 0 };
    run_pass(&mut w, &spec, &mut status, &the_ref()).unwrap();
    assert_eq!(status.phase, Phase::Running);
    assert!(status.istio_patched);
    w.now = Timestamp { secs: 1_700_000_059, nanos: 999_999_999 };
    run_pass(&mut w, &spec, &mut status, &the_ref()).unwrap();
    assert_eq!(status.phase, Phase::Running);
    assert_eq!(w.applied, 1);
    assert_eq!(w.rolled_back, 0);
    assert_eq!(w.started, 0);
    assert!(w.stored.is_empty());
}

#[test]
fn agents_are_started_on_every_running_pass() {
    let spec = spec_with(Mode::Mixed, 60, &["svc"]);
    let mut status = fresh();
    let mut w = world(100.0);
    run_pass(&mut w, &spec, &mut status, &the_ref()).unwrap();
    run_pass(&mut w, &spec, &mut status, &the_ref()).unwrap();
    run_pass(&mut w, &spec, &mut status, &the_ref()).unwrap();
    run_pass(&mut w, &spec, &mut status, &the_ref()).unwrap();
    assert_eq!(status.phase, Phase::Running);
    assert_eq!(w.applied, 1);
    assert_eq!(w.started, 3);
    assert_eq!(w.stopped, 0);
}

#[test]
fn agent_mode_never_touches_the_mesh() {
    let spec = spec_with(Mode::Agent, 1, &["svc"]);
    let mut status = fresh();
    let mut w = world(100.0);
    run_pass(&mut w, &spec, &mut status, &the_ref()).unwrap();
    w.now = Timestamp { secs: 1_700_000_001, nanos: 0 };
    run_pass(&mut w, &spec, &mut status, &the_ref()).unwrap();
    assert_eq!(status.phase, Phase::Completed);
    assert_eq!((w.applied, w.rolled_back), (0, 0));
    assert_eq!((w.started, w.stopped), (1, 1));
    assert!(!status.istio_patched);
}

#[test]
fn end_to_end_with_constant_metrics() {
    let spec = spec_with(Mode::Mesh, 1, &["svc"]);
    let exp_ref = the_ref();
    let mut status = fresh();
    let mut w = world(100.0);
    run_pass(&mut w, &spec, &mut status, &exp_ref).unwrap();
    assert_eq!(status.phase, Phase::Running);
    // The clock reaches the end exactly: that counts as over.
    w.now = Timestamp { secs: 1_700_000_001, nanos: 0 };
    run_pass(&mut w, &spec, &mut status, &exp_ref).unwrap();
    assert_eq!(status.phase, Phase::Completed);
    assert!(!status.istio_patched);
    assert_eq!((w.applied, w.rolled_back), (1, 1));
    assert_eq!(w.stored.len(), 1);
    let report = &w.stored[0];
    assert_eq!(report.experiment_ref, exp_ref);
    assert_eq!(report.windows.baseline, "now-2s_to_now-1s");
    assert_eq!(report.windows.failure, "now_to_now+1s");
    assert_eq!(report.results.len(), 1);
    let result = &report.results[0];
    assert_eq!(result.name, "svc");
    assert_eq!(number(result.rps_base), 100.0);
    assert_eq!(number(result.rps_fail), 100.0);
    assert_eq!(number(result.p95_base_ms), 100.0);
    assert_eq!(number(result.p95_fail_ms), 100.0);
    assert_eq!(number(result.impact_score), 0.0);
    assert!(report.topology.nodes.is_empty());
    assert!(report.topology.edges.is_empty());
    assert_eq!(report.artifacts.json, "{}");
    let asked: Vec<(&str, &str)> =
        w.queries.iter().map(|(q, win)| (q.as_str(), win.as_str())).collect();
    assert_eq!(
        asked,
        vec![
            ("rps_base", "now-2s_to_now-1s"),
            ("rps_fail", "now_to_now+1s"),
            ("p95_base", "now-2s_to_now-1s"),
            ("p95_fail", "now_to_now+1s"),
        ]
    );
    assert_eq!(w.edge_windows, vec!["now_to_now+1s".to_string()]);
    // A completed experiment is left alone.
    let before = status.clone();
    run_pass(&mut w, &spec, &mut status, &exp_ref).unwrap();
    assert_eq!(status, before);
    assert_eq!(w.stored.len(), 1);
    assert_eq!(w.clock_reads, 2);
}

#[test]
fn terminal_phases_are_left_alone() {
    for phase in [Phase::Completed, Phase::Error] {
        let mut status = stopping(true);
        status.phase = phase;
        let before = status.clone();
        let mut w = world(100.0);
        // Even an invalid specification is not looked at.
        let spec = spec_with(Mode::Mixed, 0, &[]);
        assert_eq!(run_pass(&mut w, &spec, &mut status, &the_ref()), Ok(()));
        assert_eq!(status, before);
        assert_eq!(w.clock_reads + w.applied + w.started + w.rolled_back + w.stopped, 0);
    }
}

#[test]
fn finalize_twice_rolls_back_once() {
    let spec = spec_with(Mode::Mixed, 1, &["svc"]);
    let mut status = stopping(true);
    let mut w = world(100.0);
    // The first time the rollback succeeds and the metrics fail.
    w.fail_metric = Some("rps_fail".to_string());
    let first = run_finalize(&mut w, &spec, &mut status, &the_ref());
    assert_eq!(first, Err(DomainError::Capability("metrics failed".to_string())));
    assert_eq!(status.phase, Phase::Stopping);
    assert!(!status.istio_patched);
    assert_eq!(w.rolled_back, 1);
    // The second time sees the flag down and skips the rollback.
    w.fail_metric = None;
    run_finalize(&mut w, &spec, &mut status, &the_ref()).unwrap();
    assert_eq!(status.phase, Phase::Completed);
    assert_eq!(w.rolled_back, 1);
    assert_eq!(w.stopped, 2);
    // And a third time, called on the completed status, still skips it.
    run_finalize(&mut w, &spec, &mut status, &the_ref()).unwrap();
    assert_eq!(w.rolled_back, 1);
}

#[test]
fn failed_rollback_is_tried_again() {
    let spec = spec_with(Mode::Mesh, 1, &["svc"]);
    let mut status = stopping(true);
    let before = status.clone();
    let mut w = world(100.0);
    w.fail_rollback = true;
    let first = run_pass(&mut w, &spec, &mut status, &the_ref());
    assert_eq!(first, Err(DomainError::Capability("rollback failed".to_string())));
    assert_eq!(status, before);
    assert_eq!(w.stopped, 0);
    assert!(w.queries.is_empty());
    w.fail_rollback = false;
    run_pass(&mut w, &spec, &mut status, &the_ref()).unwrap();
    assert_eq!(w.rolled_back, 2);
    assert_eq!(status.phase, Phase::Completed);
}

#[test]
fn every_port_failure_leaves_the_phase() {
    let spec = spec_with(Mode::Mixed, 1, &["svc"]);
    for which in 0..9u32 {
        let mut w = world(100.0);
        w.now = Timestamp { secs: 1_800_000_000, nanos: 0 };
        let mut status = stopping(false);
        status.phase = Phase::Running;
        // What fails, the error it gives, and whether the fault is applied
        // when the pass ends.
        let (expected, still_applied) = match which {
            0 => {
                w.fail_apply = true;
                ("apply failed", false)
            }
            1 => {
                w.fail_start = true;
                ("start failed", true)
            }
            2 => {
                w.fail_rollback = true;
                ("rollback failed", true)
            }
            3 => {
                w.fail_stop = true;
                ("stop failed", false)
            }
            4 => {
                w.fail_metric = Some("rps_base".to_string());
                ("metrics failed", false)
            }
            5 => {
                w.fail_metric = Some("rps_fail".to_string());
                ("metrics failed", false)
            }
            6 => {
                w.fail_metric = Some("p95_base".to_string());
                ("metrics failed", false)
            }
            7 => {
                w.fail_metric = Some("p95_fail".to_string());
                ("metrics failed", false)
            }
            _ => {
                w.fail_store = true;
                ("store failed", false)
            }
        };
        let result = run_pass(&mut w, &spec, &mut status, &the_ref());
        assert_eq!(result, Err(DomainError::Capability(expected.to_string())));
        assert!(w.stored.is_empty());
        // Nothing but the flag has changed: the phase is as it was.
        let mut expected_status = stopping(still_applied);
        expected_status.phase = Phase::Running;
        assert_eq!(status, expected_status);
    }
}

#[test]
fn trace_failure_counts_as_no_edges() {
    let spec = spec_with(Mode::Mesh, 1, &["svc"]);
    let mut status = stopping(true);
    let mut w = world(100.0);
    w.edges = vec![edge("a", "b")];
    w.fail_edges = true;
    run_pass(&mut w, &spec, &mut status, &the_ref()).unwrap();
    assert_eq!(status.phase, Phase::Completed);
    assert!(w.stored[0].topology.edges.is_empty());
    assert!(w.stored[0].topology.nodes.is_empty());
}

#[test]
fn report_topology_lists_nodes_in_first_seen_order() {
    let spec = spec_with(Mode::Agent, 1, &["front", "back"]);
    let mut status = stopping(false);
    let mut w = world(100.0);
    w.edges = vec![edge("web", "api"), edge("api", "db"), edge("web", "db"), edge("db", "db")];
    run_pass(&mut w, &spec, &mut status, &the_ref()).unwrap();
    let report = &w.stored[0];
    assert_eq!(report.topology.nodes, vec!["web".to_string(), "api".to_string(), "db".to_string()]);
    assert_eq!(report.topology.edges, w.edges);
    // Only the first target is reported.
    assert_eq!(report.results.len(), 1);
    assert_eq!(report.results[0].name, "front");
}

#[test]
fn finalize_without_windows_is_a_state_error() {
    let spec = spec_with(Mode::Mixed, 1, &["svc"]);
    for (baseline, failure) in [(false, false), (true, false), (false, true)] {
        let mut status = stopping(true);
        if !baseline {
            status.baseline_window = None;
        }
        if !failure {
            status.failure_window = None;
        }
        let mut w = world(100.0);
        let result = run_pass(&mut w, &spec, &mut status, &the_ref());
        assert_eq!(result, Err(DomainError::State("windows not computed".to_string())));
        assert_eq!(status.phase, Phase::Stopping);
        // Mesh and agents were dealt with before the windows were missed.
        assert_eq!((w.rolled_back, w.stopped), (1, 1));
        assert!(!status.istio_patched);
        assert!(w.queries.is_empty());
    }
}

#[test]
fn unusable_baselines_are_invalid_input() {
    let spec = spec_with(Mode::Mesh, 1, &["svc"]);
    for metric in [0.0, -0.0, -1.0, f64::NEG_INFINITY] {
        let mut status = stopping(true);
        let mut w = world(metric);
        let result = run_pass(&mut w, &spec, &mut status, &the_ref());
        assert_eq!(
            result,
            Err(DomainError::InvalidInput("baseline values must be > 0".to_string()))
        );
        assert_eq!(status.phase, Phase::Stopping);
        assert_eq!(w.queries.len(), 4);
        assert!(w.edge_windows.is_empty());
        assert!(w.stored.is_empty());
    }
}

#[test]
fn a_baseline_that_is_no_number_passes_the_check() {
    let spec = spec_with(Mode::Mesh, 1, &["svc"]);
    let mut status = stopping(true);
    let mut w = world(f64::NAN);
    run_pass(&mut w, &spec, &mut status, &the_ref()).unwrap();
    assert_eq!(status.phase, Phase::Completed);
    assert!(number(w.stored[0].results[0].impact_score).is_nan());
}

#[test]
fn a_reply_out_of_turn_ends_the_pass() {
    let spec = spec_with(Mode::Mesh, 1, &["svc"]);
    let mut status = stopping(true);
    let before = status.clone();
    let (pass, request) = reconcile(&spec, &status);
    assert_eq!(request, Request::RollbackFault);
    assert_eq!(pass.stage, Stage::RollingBack);
    let (pass, request) = pass.resume(&spec, &mut status, &the_ref(), Reply::Impact(measured(1.0)));
    assert_eq!(pass.stage, Stage::Finished);
    assert_eq!(
        request,
        Request::Finished {
            result: Err(DomainError::State("reply does not answer the request".to_string()))
        }
    );
    assert_eq!(status, before);
    // So does any reply to a pass that is over.
    let (pass, request) = pass.resume(&spec, &mut status, &the_ref(), Reply::Done(Ok(())));
    assert_eq!(pass.stage, Stage::Finished);
    assert!(matches!(request, Request::Finished { result: Err(DomainError::State(_)) }));
}

#[test]
fn entry_points_ask_for_the_first_thing_to_do() {
    let mut status = stopping(false);
    status.phase = Phase::Running;
    let mesh = spec_with(Mode::Mesh, 1, &["svc"]);
    let agent = spec_with(Mode::Agent, 1, &["svc"]);
    assert_eq!(maybe_apply_mesh(&mesh, &status).1, Request::ApplyFault);
    assert_eq!(maybe_apply_mesh(&agent, &status).1, Request::StartLoad);
    assert_eq!(maybe_start_agents(&mesh, &status).1, Request::Now);
    assert_eq!(maybe_start_agents(&agent, &status).1, Request::StartLoad);
    status.istio_patched = true;
    assert_eq!(maybe_apply_mesh(&mesh, &status).1, Request::Now);
    assert_eq!(finalize(&mesh, &status).1, Request::RollbackFault);
    assert_eq!(finalize(&agent, &status).1, Request::StopLoad);
    status.ends_at = None;
    assert_eq!(maybe_start_agents(&mesh, &status).1, Request::Finished { result: Ok(()) });
    status.istio_patched = false;
    assert_eq!(
        finalize(&mesh, &status).1,
        Request::FetchValue {
            query: "rps_base".to_string(),
            window: "now-2s_to_now-1s".to_string()
        }
    );
}

#[test]
fn assembled_report_holds_what_it_was_given() {
    let spec = spec_with(Mode::Mesh, 1, &["svc"]);
    let samples = Samples {
        rps_base: measured(100.0),
        rps_fail: measured(60.0),
        p95_base_ms: measured(200.0),
        p95_fail_ms: measured(300.0),
    };
    let report = assemble_report(
        &spec,
        &the_ref(),
        "b".to_string(),
        "f".to_string(),
        samples,
        impact(samples),
        vec![edge("x", "y"), edge("y", "x")],
    );
    assert_eq!(report.experiment_ref, the_ref());
    assert_eq!((report.windows.baseline.as_str(), report.windows.failure.as_str()), ("b", "f"));
    assert_eq!(number(report.results[0].rps_fail), 60.0);
    assert_eq!(number(report.results[0].p95_fail_ms), 300.0);
    assert_eq!(number(report.results[0].impact_score), 90.0);
    assert_eq!(report.topology.nodes, vec!["x".to_string(), "y".to_string()]);
    assert_eq!(report.topology.edges.len(), 2);
}

#[test]
fn leap_second_start_ends_on_a_plain_second() {
    let spec = spec_with(Mode::Mesh, 1, &["svc"]);
    let mut status = fresh();
    let mut w = world(100.0);
    w.now = Timestamp { secs: 1_483_228_799, nanos: 1_500_000_000 };
    run_pass(&mut w, &spec, &mut status, &the_ref()).unwrap();
    assert_eq!(status.started_at, Some(Timestamp { secs: 1_483_228_799, nanos: 1_500_000_000 }));
    assert_eq!(status.ends_at, Some(Timestamp { secs: 1_483_228_800, nanos: 500_000_000 }));
}

/// A whole pass written as one straight function over the same world, to
/// hold the stepwise engine against.
fn straight_pass(
    w: &mut World,
    spec: &ChaosExperimentSpec,
    status: &mut ChaosExperimentStatus,
    exp_ref: &ExperimentRef,
) -> Result<(), DomainError> {
    match status.phase {
        Phase::Pending => {
            if spec.targets.is_empty() {
                return Err(DomainError::validation("targets must not be empty"));
            }
            if spec.duration_seconds == 0 {
                return Err(DomainError::validation("durationSeconds must be > 0"));
            }
            let d = u64::from(spec.duration_seconds);
            status.baseline_window = Some(format!("now-{}s_to_now-{}s", 2 * d, d));
            status.failure_window = Some(format!("now_to_now+{}s", d));
            w.clock_reads += 1;
            status.started_at = Some(w.now);
            status.ends_at =
                Some(Timestamp { secs: w.now.secs + i64::from(spec.duration_seconds), ..w.now });
            status.phase = Phase::Running;
        }
        Phase::Running => {
            if matches!(spec.mode, Mode::Mesh | Mode::Mixed) && !status.istio_patched {
                w.applied += 1;
                outcome(w.fail_apply, "apply failed")?;
                status.istio_patched = true;
            }
            if matches!(spec.mode, Mode::Agent | Mode::Mixed) {
                w.started += 1;
                outcome(w.fail_start, "start failed")?;
            }
            if let Some(ends_at) = status.ends_at {
                w.clock_reads += 1;
                if (w.now.secs, w.now.nanos) >= (ends_at.secs, ends_at.nanos) {
                    straight_finalize(w, spec, status, exp_ref)?;
                }
            }
        }
        Phase::Stopping => {
            straight_finalize(w, spec, status, exp_ref)?;
        }
        Phase::Completed | Phase::Error => {}
    }
    Ok(())
}

fn straight_fetch(w: &mut World, query: &str, window: &str) -> Result<f64, DomainError> {
    let failing = w.fail_metric.as_deref() == Some(query);
    w.queries.push((query.to_string(), window.to_string()));
    if failing {
        Err(DomainError::capability("metrics failed"))
    } else {
        Ok(w.metric)
    }
}

fn straight_finalize(
    w: &mut World,
    spec: &ChaosExperimentSpec,
    status: &mut ChaosExperimentStatus,
    exp_ref: &ExperimentRef,
) -> Result<(), DomainError> {
    if matches!(spec.mode, Mode::Mesh | Mode::Mixed) && status.istio_patched {
        w.rolled_back += 1;
        outcome(w.fail_rollback, "rollback failed")?;
        status.istio_patched = false;
    }
    if matches!(spec.mode, Mode::Agent | Mode::Mixed) {
        w.stopped += 1;
        outcome(w.fail_stop, "stop failed")?;
    }
    let (base_win, fail_win) = match (&status.baseline_window, &status.failure_window) {
        (Some(b), Some(f)) => (b.clone(), f.clone()),
        _ => return Err(DomainError::state("windows not computed")),
    };
    let rps_base = straight_fetch(w, "rps_base", &base_win)?;
    let rps_fail = straight_fetch(w, "rps_fail", &fail_win)?;
    let p95_base = straight_fetch(w, "p95_base", &base_win)?;
    let p95_fail = straight_fetch(w, "p95_fail", &fail_win)?;
    if rps_base <= 0.0 || p95_base <= 0.0 {
        return Err(DomainError::invalid_input("baseline values must be > 0"));
    }
    let score = ((rps_base - rps_fail) / rps_base) * 100.0
        + ((p95_fail - p95_base) / p95_base) * 100.0;
    w.edge_windows.push(fail_win.clone());
    let edges = if w.fail_edges { Vec::new() } else { w.edges.clone() };
    let mut nodes: Vec<String> = Vec::new();
    for e in &edges {
        if !nodes.contains(&e.from) {
            nodes.push(e.from.clone());
        }
        if !nodes.contains(&e.to) {
            nodes.push(e.to.clone());
        }
    }
    let report = ChaosReport {
        experiment_ref: exp_ref.clone(),
        windows: chaos_operator::models::Windows { baseline: base_win, failure: fail_win },
        results: vec![chaos_operator::models::ServiceResult {
            name: spec
                .targets
                .first()
                .map(|t| t.service.clone())
                .unwrap_or_else(|| "unknown".to_string()),
            rps_base: measured(rps_base),
            rps_fail: measured(rps_fail),
            p95_base_ms: measured(p95_base),
            p95_fail_ms: measured(p95_fail),
            impact_score: measured(score),
        }],
        topology: chaos_operator::models::Topology { nodes, edges },
        artifacts: chaos_operator::models::Artifacts { json: "{}".to_string() },
    };
    if w.fail_store {
        return Err(DomainError::capability("store failed"));
    }
    w.stored.push(report);
    status.phase = Phase::Completed;
    Ok(())
}

fn fail_at(w: &mut World, which: u32) {
    match which {
        1 => w.fail_apply = true,
        2 => w.fail_start = true,
        3 => w.fail_rollback = true,
        4 => w.fail_stop = true,
        5 => w.fail_metric = Some("rps_base".to_string()),
        6 => w.fail_metric = Some("rps_fail".to_string()),
        7 => w.fail_metric = Some("p95_base".to_string()),
        8 => w.fail_metric = Some("p95_fail".to_string()),
        9 => w.fail_edges = true,
        10 => w.fail_store = true,
        _ => {}
    }
}

fn tally(w: &World) -> (u32, u32, u32, u32, u32, Vec<(String, String)>, Vec<String>) {
    (
        w.applied,
        w.rolled_back,
        w.started,
        w.stopped,
        w.clock_reads,
        w.queries.clone(),
        w.edge_windows.clone(),
    )
}

#[test]
fn engine_agrees_with_the_straight_pass() {
    let now = Timestamp { secs: 1_700_000_100, nanos: 500 };
    let ends = [
        None,
        Some(Timestamp { secs: 1_700_000_100, nanos: 499 }),
        Some(Timestamp { secs: 1_700_000_100, nanos: 500 }),
        Some(Timestamp { secs: 1_700_000_100, nanos: 501 }),
        Some(Timestamp { secs: 1_700_000_101, nanos: 0 }),
    ];
    let phases = [Phase::Pending, Phase::Running, Phase::Stopping, Phase::Completed, Phase::Error];
    let mut scenarios: u32 = 0;
    for mode in [Mode::Agent, Mode::Mesh, Mode::Mixed] {
        for phase in phases {
            for patched in [false, true] {
                for windows in 0..4u32 {
                    for end in ends {
                        for which in 0..11u32 {
                            for metric in [100.0, 0.0, -3.5, f64::INFINITY] {
                                for targets in [&[][..], &["one", "two"][..]] {
                                    for duration in [0u32, 30] {
                                        let spec = spec_with(mode, duration, targets);
                                        let status = ChaosExperimentStatus {
                                            phase,
                                            started_at: Some(Timestamp { secs: 7, nanos: 7 }),
                                            ends_at: end,
                                            baseline_window: if windows & 1 == 1 {
                                                Some("before".to_string())
                                            } else {
                                                None
                                            },
                                            failure_window: if windows & 2 == 2 {
                                                Some("during".to_string())
                                            } else {
                                                None
                                            },
                                            istio_patched: patched,
                                            snapshot: None,
                                        };
                                        let mut stepwise = world(metric);
                                        let mut straight = world(metric);
                                        for w in [&mut stepwise, &mut straight] {
                                            w.now = now;
                                            w.edges = vec![edge("a", "b"), edge("b", "a")];
                                            fail_at(w, which);
                                        }
                                        let mut left = status.clone();
                                        let mut right = status.clone();
                                        let exp_ref = the_ref();
                                        let a = run_pass(&mut stepwise, &spec, &mut left, &exp_ref);
                                        let b =
                                            straight_pass(&mut straight, &spec, &mut right, &exp_ref);
                                        assert_eq!(a, b);
                                        assert_eq!(left, right);
                                        assert_eq!(tally(&stepwise), tally(&straight));
                                        assert_eq!(stepwise.stored, straight.stored);
                                        scenarios += 1;
                                    }
                                }
                            }
                        }
                    }
                }
            }
        }
    }
    assert_eq!(scenarios, 3 * 5 * 2 * 4 * 5 * 11 * 4 * 2 * 2);
}
