//! The custom resource of the cluster operator, and what the operator
//! decides when it is handed one.

use vstd::prelude::*;
use vstd::string::StringExecFns;

verus! {

/// Chaos scenario type
#[derive(Debug, Clone, Copy, PartialEq, Eq, Hash)]
pub enum ScenarioType {
    PodKiller,
    CpuStress,
    NetworkDelay,
}

/// Experiment specification
#[derive(Debug, Clone)]
pub struct ChaosExperimentSpec {
    /// Scenario type
    pub scenario: ScenarioType,
    /// Duration in seconds
    pub duration: u64,
    /// Target namespace (optional)
    pub target_namespace: Option<String>,
}

/// Experiment phase
#[derive(Debug, Clone, Copy, PartialEq, Eq)]
pub enum Phase {
    Pending,
    Running,
    Succeeded,
    Failed,
}

impl Default for Phase {
    fn default() -> (p: Self)
        ensures
            p is Pending,
    {
        Phase::Pending
    }
}

/// Experiment status
#[derive(Debug, Clone)]
pub struct ChaosExperimentStatus {
    pub phase: Phase,
    pub message: Option<String>,
}

impl Default for ChaosExperimentStatus {
    fn default() -> (s: Self)
        ensures
            s.phase is Pending,
            s.message is None,
    {
        ChaosExperimentStatus { phase: Phase::Pending, message: None }
    }
}

/// Seconds after which a resource is looked at again once its status has
/// been updated.
pub const REQUEUE_AFTER_UPDATE: u64 = 10;

/// Seconds after which a resource that has reached its last phase is looked
/// at again.
pub const REQUEUE_AT_REST: u64 = 300;

/// Seconds after which a resource is looked at again once a reconciliation
/// of it has failed.
pub const REQUEUE_AFTER_ERROR: u64 = 30;

/// What the operator does with a resource.
#[derive(Debug, Clone, Copy, PartialEq, Eq)]
pub enum Plan {
    /// Record the phase in the status of the resource, then look again
    /// after the seconds given.
    Advance { to: Phase, requeue_after: u64 },
    /// Leave the resource alone and look again after the seconds given.
    Rest { requeue_after: u64 },
}

/// The phase that follows `current`, where one does: a pending experiment
/// is started, a running one has succeeded.
pub open spec fn next_phase(current: Phase) -> Option<Phase> {
    match current {
        Phase::Pending => Some(Phase::Running),
        Phase::Running => Some(Phase::Succeeded),
        Phase::Succeeded | Phase::Failed => None,
    }
}

/// Decides what to do with a resource in the phase `current`.
pub fn plan(current: Phase) -> (p: Plan)
    ensures
        p == (match next_phase(current) {
            Some(to) => Plan::Advance { to, requeue_after: REQUEUE_AFTER_UPDATE },
            None => Plan::Rest { requeue_after: REQUEUE_AT_REST },
        }),
{
    match current {
        Phase::Pending => Plan::Advance { to: Phase::Running, requeue_after: REQUEUE_AFTER_UPDATE },
        Phase::Running => Plan::Advance {
            to: Phase::Succeeded,
            requeue_after: REQUEUE_AFTER_UPDATE,
        },
        Phase::Succeeded | Phase::Failed => Plan::Rest { requeue_after: REQUEUE_AT_REST },
    }
}

/// The name of a phase.
pub open spec fn phase_name(phase: Phase) -> Seq<char> {
    match phase {
        Phase::Pending => "Pending"@,
        Phase::Running => "Running"@,
        Phase::Succeeded => "Succeeded"@,
        Phase::Failed => "Failed"@,
    }
}

/// The message that goes into the status with a phase.
pub fn status_message(phase: Phase) -> (message: String)
    ensures
        message@ == "Experiment is in "@ + phase_name(phase) + " phase"@,
{
    let mut message = String::from_str("Experiment is in ");
    message.append(
        match phase {
            Phase::Pending => "Pending",
            Phase::Running => "Running",
            Phase::Succeeded => "Succeeded",
            Phase::Failed => "Failed",
        },
    );
    message.append(" phase");
    message
}

/// The phases follow one another in one direction and come to rest after
/// two steps at most.
pub proof fn lemma_phases_come_to_rest(current: Phase)
    ensures
        next_phase(current) matches Some(a) ==> a != current && (next_phase(a) matches Some(b)
            ==> next_phase(b) is None),
        !(next_phase(current) matches Some(Phase::Pending)),
        !(next_phase(current) matches Some(Phase::Failed)),
{
}

} // verus!
