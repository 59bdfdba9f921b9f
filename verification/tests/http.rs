use chaos_operator::engine::{reconcile, Reply, Request};
use chaos_operator::http::{
    apply_experiment, create_report, default_experiment, healthz, report, run_experiment, status,
    stop, Response,
};
use chaos_operator::measure::Measurement;
use chaos_operator::models::{
    ChaosExperimentStatus, ChaosReport, ExperimentRef, Mode, Phase,
};
use chaos_operator::state::SharedState;
use chaos_operator::time::Timestamp;

fn pending() -> ChaosExperimentStatus {
    ChaosExperimentStatus {
        phase: Phase::Pending,
        started_at: None,
        ends_at: None,
        baseline_window: None,
        failure_window: None,
        istio_patched: false,
        snapshot: None,
    }
}

/// Runs reconciliation passes against ports that do nothing, metrics that
/// are constantly one and a clock that moves on by one second with every
/// reading; stores each report under the experiment's key.
fn reconcile_with_idle_ports(
    state: &mut SharedState,
    exp_ref: &ExperimentRef,
    current: &mut ChaosExperimentStatus,
    clock: &mut i64,
) {
    let spec = default_experiment(&exp_ref.name);
    let (mut pass, mut request) = reconcile(&spec, current);
    loop {
        let reply = match request {
            Request::Finished { result } => {
                result.unwrap();
                return;
            }
            Request::Now => {
                *clock += 1;
                Reply::Now(Timestamp { secs: *clock, nanos: 0 })
            }
            Request::FetchValue { .. } => {
                Reply::Value(Ok(Measurement::from_bits(1.0f64.to_bits())))
            }
            Request::Impact { .. } => Reply::Impact(Measurement::from_bits(0.0f64.to_bits())),
            Request::FetchEdges { .. } => Reply::Edges(Ok(Vec::new())),
            Request::StoreReport { report } => {
                state.set_report(&exp_ref.namespace, &exp_ref.name, report);
                Reply::Done(Ok(()))
            }
            _ => Reply::Done(Ok(())),
        };
        let next = pass.resume(&spec, current, exp_ref, reply);
        pass = next.0;
        request = next.1;
    }
}

#[test]
fn handlers_exist() {
    let _ = healthz;
    let _ = status;
    let _ = report;
    let _ = stop;
}

#[test]
fn healthz_ok() {
    let resp = healthz();
    assert_eq!(resp.status_code(), 200);
    assert_eq!(resp, Response::Text("ok".to_string()));
}

#[test]
fn healthz_works() {
    assert!((200..300).contains(&healthz().status_code()));
}

#[test]
fn report_not_found_then_create() {
    let mut state = SharedState::new();

    // Not found before create
    let resp = report("ns", "exp", &state);
    assert_eq!(resp.status_code(), 404);
    assert_eq!(resp, Response::NotFound);

    // Create report
    let resp = create_report("ns", "exp", &mut state);
    assert_eq!(resp.status_code(), 200);

    // Now exists
    let resp = report("ns", "exp", &state);
    assert_eq!(resp.status_code(), 200);
    match resp {
        Response::Report(found) => {
            assert_eq!(
                found.experiment_ref,
                ExperimentRef { namespace: "ns".to_string(), name: "exp".to_string() }
            );
            assert_eq!(found.windows.baseline, "b");
            assert_eq!(found.windows.failure, "f");
            assert!(found.results.is_empty());
            assert!(found.topology.nodes.is_empty() && found.topology.edges.is_empty());
            assert_eq!(found.artifacts.json, "{}");
        }
        other => panic!("no report: {:?}", other),
    }
    // Other experiments still have none.
    assert_eq!(report("ns", "other", &state), Response::NotFound);
    assert_eq!(report("exp", "ns", &state), Response::NotFound);
}

#[test]
fn apply_and_status_running() {
    let mut state = SharedState::new();
    let resp = apply_experiment("ns", "exp", &mut state);
    assert_eq!(resp.status_code(), 200);
    assert_eq!(resp, Response::Empty);

    let resp = status("ns", "exp", &state);
    assert_eq!(resp.status_code(), 200);
    let mut running = pending();
    running.phase = Phase::Running;
    assert_eq!(resp, Response::Status(running));
}

#[test]
fn run_sets_status() {
    let mut state = SharedState::new();
    let exp_ref = ExperimentRef { namespace: "ns".to_string(), name: "exp".to_string() };
    let mut current = pending();
    let mut clock: i64 = 1_700_000_000;
    reconcile_with_idle_ports(&mut state, &exp_ref, &mut current, &mut clock);
    let resp = run_experiment("ns", "exp", &mut state, current);
    assert_eq!(resp.status_code(), 200);

    let resp = status("ns", "exp", &state);
    assert_eq!(resp.status_code(), 200);
    match resp {
        Response::Status(found) => {
            assert_eq!(found.phase, Phase::Running);
            assert_eq!(found.started_at, Some(Timestamp { secs: 1_700_000_001, nanos: 0 }));
            assert_eq!(found.ends_at, Some(Timestamp { secs: 1_700_000_002, nanos: 0 }));
        }
        other => panic!("no status: {:?}", other),
    }
}

#[test]
fn report_is_found_after_a_full_lifecycle() {
    let mut state = SharedState::new();
    let exp_ref = ExperimentRef { namespace: "ns".to_string(), name: "exp".to_string() };
    let mut current = pending();
    let mut clock: i64 = 1_700_000_000;
    // Pending to running: still no report.
    reconcile_with_idle_ports(&mut state, &exp_ref, &mut current, &mut clock);
    assert_eq!(current.phase, Phase::Running);
    assert_eq!(report("ns", "exp", &state), Response::NotFound);
    // Running to completed: the report is there, under the same reference.
    reconcile_with_idle_ports(&mut state, &exp_ref, &mut current, &mut clock);
    assert_eq!(current.phase, Phase::Completed);
    match report("ns", "exp", &state) {
        Response::Report(ChaosReport { experiment_ref, results, .. }) => {
            assert_eq!(experiment_ref, exp_ref);
            assert_eq!(results.len(), 1);
            assert_eq!(results[0].name, "exp");
        }
        other => panic!("no report: {:?}", other),
    }
    assert_eq!(report("ns", "exp2", &state), Response::NotFound);
}

#[test]
fn status_of_an_unknown_experiment_is_pending() {
    let state = SharedState::new();
    assert_eq!(status("ns", "exp", &state), Response::Status(pending()));
}

#[test]
fn stop_is_acknowledged() {
    let state = SharedState::new();
    let resp = stop("ns", "exp", &state);
    assert_eq!(resp.status_code(), 200);
    assert_eq!(resp, Response::Json("{\"stopped\":true}".to_string()));
}

#[test]
fn default_experiment_targets_the_named_service() {
    let spec = default_experiment("cart");
    assert_eq!(spec.targets.len(), 1);
    assert_eq!(spec.targets[0].service, "cart");
    assert_eq!(spec.targets[0].match_, None);
    assert_eq!(spec.mode, Mode::Mesh);
    assert_eq!(spec.duration_seconds, 1);
    assert_eq!(spec.load_profile.type_, "none");
    assert_eq!((spec.load_profile.rps, spec.load_profile.connections), (None, None));
    assert!(spec.mesh_fault.is_none() && spec.agent_fault.is_none());
    assert!(spec.labels.is_empty());
}
