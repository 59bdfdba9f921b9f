//! What holds of every reconciliation pass, whatever the outside world answers.

use crate::engine::{
    after_rollback, after_start, after_stop, edges_or_none, finalize_spec, finished,
    maybe_start_agents_spec, reconcile_spec, report_of, resume_spec, started, validation_of,
    waiting, Progress, ReplyView, RequestView, Samples, Stage,
};
use crate::errors::DomainErrorView;
use crate::measure::Measurement;
use crate::models::{ChaosExperimentSpec, EdgeView, ExperimentRefView, Phase, StatusView};
use vstd::prelude::*;

verus! {

// Runs of a pass.

/// Where a pass stands after the caller has answered with `replies`, in
/// order, beginning from `start`. Replies that come after the pass is over
/// are not looked at.
pub open spec fn run_from(
    experiment: &ChaosExperimentSpec,
    exp_ref: ExperimentRefView,
    start: Progress,
    replies: Seq<ReplyView>,
) -> Progress
    decreases replies.len(),
{
    if replies.len() == 0 {
        start
    } else {
        let before = run_from(experiment, exp_ref, start, replies.drop_last());
        if before.is_finished() {
            before
        } else {
            resume_spec(experiment, exp_ref, before.stage, before.status, replies.last())
        }
    }
}

/// Where a reconciliation pass over `status` stands after `replies`.
pub open spec fn run_spec(
    experiment: &ChaosExperimentSpec,
    exp_ref: ExperimentRefView,
    status: StatusView,
    replies: Seq<ReplyView>,
) -> Progress {
    run_from(experiment, exp_ref, reconcile_spec(experiment, status), replies)
}

/// Where finalizing `status` stands after `replies`.
pub open spec fn run_finalize(
    experiment: &ChaosExperimentSpec,
    exp_ref: ExperimentRefView,
    status: StatusView,
    replies: Seq<ReplyView>,
) -> Progress {
    run_from(experiment, exp_ref, finalize_spec(experiment, status), replies)
}

/// One more reply takes a pass that is not over one step further.
pub proof fn lemma_one_more_reply(
    experiment: &ChaosExperimentSpec,
    exp_ref: ExperimentRefView,
    start: Progress,
    replies: Seq<ReplyView>,
    reply: ReplyView,
)
    ensures
        run_from(experiment, exp_ref, start, replies.push(reply)) == (if run_from(
            experiment,
            exp_ref,
            start,
            replies,
        ).is_finished() {
            run_from(experiment, exp_ref, start, replies)
        } else {
            resume_spec(
                experiment,
                exp_ref,
                run_from(experiment, exp_ref, start, replies).stage,
                run_from(experiment, exp_ref, start, replies).status,
                reply,
            )
        }),
{
    assert(replies.push(reply).drop_last() =~= replies);
}

/// A pass taken in two parts: what the second part comes to, begun where
/// the first part ended, is what the whole comes to.
pub proof fn lemma_run_splits(
    experiment: &ChaosExperimentSpec,
    exp_ref: ExperimentRefView,
    start: Progress,
    first: Seq<ReplyView>,
    second: Seq<ReplyView>,
)
    ensures
        run_from(experiment, exp_ref, start, first + second) == run_from(
            experiment,
            exp_ref,
            run_from(experiment, exp_ref, start, first),
            second,
        ),
    decreases second.len(),
{
    if second.len() == 0 {
        assert(first + second =~= first);
    } else {
        lemma_run_splits(experiment, exp_ref, start, first, second.drop_last());
        assert((first + second).drop_last() =~= first + second.drop_last());
        assert((first + second).last() == second.last());
    }
}

/// A pass stays where it is once it is over.
pub proof fn lemma_finished_pass_stays(
    experiment: &ChaosExperimentSpec,
    exp_ref: ExperimentRefView,
    start: Progress,
    replies: Seq<ReplyView>,
)
    requires
        start.is_finished(),
    ensures
        run_from(experiment, exp_ref, start, replies) == start,
    decreases replies.len(),
{
    if replies.len() > 0 {
        lemma_finished_pass_stays(experiment, exp_ref, start, replies.drop_last());
    }
}

// What every step keeps.

/// The request that belongs to a stage: a pass that waits at a stage has
/// asked for this kind of work.
pub open spec fn asks_what_it_waits_for(p: Progress) -> bool {
    match p.stage {
        Stage::StartTime | Stage::Deadline => p.request is Now,
        Stage::Applying => p.request is ApplyFault,
        Stage::Starting => p.request is StartLoad,
        Stage::RollingBack => p.request is RollbackFault,
        Stage::Stopping => p.request is StopLoad,
        Stage::RpsBase | Stage::RpsFail { .. } | Stage::P95Base { .. } | Stage::P95Fail { .. } =>
            p.request is FetchValue,
        Stage::Scoring { .. } => p.request is Impact,
        Stage::Tracing { .. } => p.request is FetchEdges,
        Stage::Storing => p.request is StoreReport,
        Stage::Finished => p.request is Finished,
    }
}

/// How many replies a pass at this stage can still take, at most.
pub open spec fn steps_left(stage: Stage) -> nat {
    match stage {
        Stage::StartTime => 1,
        Stage::Applying => 12,
        Stage::Starting => 11,
        Stage::Deadline => 10,
        Stage::RollingBack => 9,
        Stage::Stopping => 8,
        Stage::RpsBase => 7,
        Stage::RpsFail { .. } => 6,
        Stage::P95Base { .. } => 5,
        Stage::P95Fail { .. } => 4,
        Stage::Scoring { .. } => 3,
        Stage::Tracing { .. } => 2,
        Stage::Storing => 1,
        Stage::Finished => 0,
    }
}

/// Whether a stage belongs to finalizing.
pub open spec fn finalizing(stage: Stage) -> bool {
    !(stage is StartTime || stage is Applying || stage is Starting || stage is Deadline)
}

/// Whether two statuses differ at most in the flag that tracks the mesh fault.
pub open spec fn same_but_for_flag(a: StatusView, b: StatusView) -> bool {
    a == (StatusView { istio_patched: a.istio_patched, ..b })
}

/// Whether an experiment that has left `Pending` has what leaving it
/// computes: start, end and both windows.
pub open spec fn scheduled(status: StatusView) -> bool {
    status.phase is Pending || (status.started_at is Some && status.ends_at is Some
        && status.baseline_window is Some && status.failure_window is Some)
}

/// Whether a pass that has begun with a reconciliation can stand like this:
/// it asks for what it waits for, waits for the start time only while the
/// experiment is pending, works on mesh, agents and deadline only while it
/// is running, and finalizes only a running or stopping experiment.
pub open spec fn in_step(p: Progress) -> bool {
    &&& asks_what_it_waits_for(p)
    &&& match p.stage {
        Stage::StartTime => p.status.phase is Pending,
        Stage::Applying | Stage::Starting | Stage::Deadline => p.status.phase is Running,
        Stage::Finished => true,
        _ => p.status.phase is Running || p.status.phase is Stopping,
    }
}

/// What a pass may have done to the phase: nothing, or started a pending
/// experiment, or completed a running or stopping one. The last two only
/// where the pass has ended in success.
pub open spec fn phase_moved_forward(before: StatusView, after: Progress) -> bool {
    ||| after.status.phase == before.phase
    ||| before.phase is Pending && after.status.phase is Running && after.succeeded()
    ||| (before.phase is Running || before.phase is Stopping) && after.status.phase is Completed
        && after.succeeded()
}

/// What a pass never touches unless it starts a pending experiment: start,
/// end and both windows. The snapshot it never touches at all.
pub open spec fn keeps_schedule(before: StatusView, after: StatusView) -> bool {
    &&& after.started_at == before.started_at
    &&& after.ends_at == before.ends_at
    &&& after.baseline_window == before.baseline_window
    &&& after.failure_window == before.failure_window
    &&& after.snapshot == before.snapshot
}

/// The first step of a pass asks for what it then waits for, leaves the
/// status alone, and is at most twelve replies away from the end.
pub proof fn lemma_first_step(experiment: &ChaosExperimentSpec, status: StatusView)
    ensures
        asks_what_it_waits_for(reconcile_spec(experiment, status)),
        reconcile_spec(experiment, status).status == status,
        steps_left(reconcile_spec(experiment, status).stage) <= 12,
        asks_what_it_waits_for(finalize_spec(experiment, status)),
        finalize_spec(experiment, status).status == status,
        finalizing(finalize_spec(experiment, status).stage),
{
}

/// A reconciliation begins in step.
pub proof fn lemma_reconcile_begins_in_step(experiment: &ChaosExperimentSpec, status: StatusView)
    ensures
        in_step(reconcile_spec(experiment, status)),
        reconcile_spec(experiment, status).status == status,
{
}

/// One step of a pass. The step asks for what it then waits for and brings
/// the pass nearer to its end. The phase changes only where the pass ends in
/// success: from `Pending` to `Running`, or from a running or stopping
/// experiment to `Completed`. The flag goes up exactly when the mesh has
/// applied the fault and down exactly when it has rolled it back. Start, end
/// and windows change only on leaving `Pending`; the snapshot never changes.
pub proof fn lemma_step(
    experiment: &ChaosExperimentSpec,
    exp_ref: ExperimentRefView,
    stage: Stage,
    status: StatusView,
    reply: ReplyView,
)
    ensures
        ({
            let next = resume_spec(experiment, exp_ref, stage, status, reply);
            &&& asks_what_it_waits_for(next)
            &&& steps_left(next.stage) < steps_left(stage) || (stage is Finished
                && next.stage is Finished)
            &&& finalizing(stage) ==> finalizing(next.stage)
            &&& next.status.snapshot == status.snapshot
            &&& next.status.phase != status.phase ==> next.succeeded() && (stage is StartTime
                || stage is Storing)
            &&& stage is StartTime && reply is Now ==> next == finished(
                started(experiment, status, reply->Now_0),
                Ok(()),
            )
            &&& stage is Storing ==> next.status.phase == (if reply.confirms() {
                Phase::Completed
            } else {
                status.phase
            })
            &&& !(stage is StartTime) ==> same_but_for_flag(next.status, status) || (
            stage is Storing && same_but_for_flag(
                next.status,
                StatusView { phase: Phase::Completed, ..status },
            ))
            &&& next.status.istio_patched == (if stage is Applying && reply.confirms() {
                true
            } else if stage is RollingBack && reply.confirms() {
                false
            } else {
                status.istio_patched
            })
        }),
{
}

/// A pass always asks for what it waits for.
pub proof fn lemma_coherence(
    experiment: &ChaosExperimentSpec,
    exp_ref: ExperimentRefView,
    start: Progress,
    replies: Seq<ReplyView>,
)
    requires
        asks_what_it_waits_for(start),
    ensures
        asks_what_it_waits_for(run_from(experiment, exp_ref, start, replies)),
    decreases replies.len(),
{
    if replies.len() > 0 {
        let before = run_from(experiment, exp_ref, start, replies.drop_last());
        lemma_coherence(experiment, exp_ref, start, replies.drop_last());
        if !before.is_finished() {
            lemma_step(experiment, exp_ref, before.stage, before.status, replies.last());
        }
    }
}

/// What holds of a pass at every point, from a beginning that is in step.
pub proof fn lemma_run(
    experiment: &ChaosExperimentSpec,
    exp_ref: ExperimentRefView,
    start: Progress,
    replies: Seq<ReplyView>,
)
    requires
        in_step(start),
    ensures
        ({
            let end = run_from(experiment, exp_ref, start, replies);
            &&& in_step(end)
            &&& end.is_finished() || steps_left(end.stage) + replies.len() <= steps_left(
                start.stage,
            )
            &&& finalizing(start.stage) ==> finalizing(end.stage)
            &&& end.is_finished() <==> end.stage is Finished
            &&& start.is_finished() || phase_moved_forward(start.status, end)
            &&& end.status.snapshot == start.status.snapshot
            &&& scheduled(start.status) ==> scheduled(end.status)
            &&& !(start.status.phase is Pending) ==> keeps_schedule(start.status, end.status)
            &&& end.status.phase is Pending ==> end.status == start.status
        }),
    decreases replies.len(),
{
    if replies.len() > 0 {
        let before = run_from(experiment, exp_ref, start, replies.drop_last());
        lemma_run(experiment, exp_ref, start, replies.drop_last());
        if !before.is_finished() {
            lemma_step(experiment, exp_ref, before.stage, before.status, replies.last());
        }
    }
}

/// A pass moves on with every reply: from a beginning that is not over,
/// at least one reply later the pass is nearer to its end.
pub proof fn lemma_steps_run_out(
    experiment: &ChaosExperimentSpec,
    exp_ref: ExperimentRefView,
    start: Progress,
    replies: Seq<ReplyView>,
)
    requires
        asks_what_it_waits_for(start),
        !start.is_finished(),
        replies.len() > 0,
    ensures
        steps_left(run_from(experiment, exp_ref, start, replies).stage) < steps_left(start.stage),
    decreases replies.len(),
{
    let shorter = replies.drop_last();
    let before = run_from(experiment, exp_ref, start, shorter);
    lemma_coherence(experiment, exp_ref, start, shorter);
    if shorter.len() > 0 {
        lemma_steps_run_out(experiment, exp_ref, start, shorter);
    }
    if !before.is_finished() {
        lemma_step(experiment, exp_ref, before.stage, before.status, replies.last());
    }
}

/// A pass never comes back to a stage it has left. So within one pass the
/// fault is applied at most once and rolled back at most once, the agents
/// are started at most once and stopped at most once, each sample is
/// fetched once, and at most one report is handed over for storing.
pub proof fn lemma_no_stage_twice(
    experiment: &ChaosExperimentSpec,
    exp_ref: ExperimentRefView,
    status: StatusView,
    replies: Seq<ReplyView>,
    earlier: int,
    later: int,
)
    requires
        0 <= earlier < later <= replies.len(),
        !run_spec(experiment, exp_ref, status, replies.take(earlier)).is_finished(),
    ensures
        steps_left(run_spec(experiment, exp_ref, status, replies.take(later)).stage) < steps_left(
            run_spec(experiment, exp_ref, status, replies.take(earlier)).stage,
        ),
        run_spec(experiment, exp_ref, status, replies.take(later)).stage != run_spec(
            experiment,
            exp_ref,
            status,
            replies.take(earlier),
        ).stage,
{
    let start = reconcile_spec(experiment, status);
    let first = replies.take(earlier);
    let second = replies.subrange(earlier, later);
    assert(first + second =~= replies.take(later));
    lemma_first_step(experiment, status);
    lemma_coherence(experiment, exp_ref, start, first);
    lemma_run_splits(experiment, exp_ref, start, first, second);
    lemma_steps_run_out(
        experiment,
        exp_ref,
        run_from(experiment, exp_ref, start, first),
        second,
    );
}

// Phases and schedule.

/// A completed or failed experiment is left alone: the pass is over at
/// once, in success, with the status as it was.
pub proof fn lemma_terminal_phase_is_left_alone(
    experiment: &ChaosExperimentSpec,
    exp_ref: ExperimentRefView,
    status: StatusView,
    replies: Seq<ReplyView>,
)
    requires
        status.phase.terminal(),
    ensures
        run_spec(experiment, exp_ref, status, replies) == finished(status, Ok(())),
{
    lemma_finished_pass_stays(
        experiment,
        exp_ref,
        reconcile_spec(experiment, status),
        replies,
    );
}

/// A pending experiment whose specification names no target, or lasts no
/// time, is rejected with a validation error, and its status stays as it
/// was: pending.
pub proof fn lemma_invalid_spec_is_rejected(
    experiment: &ChaosExperimentSpec,
    exp_ref: ExperimentRefView,
    status: StatusView,
    replies: Seq<ReplyView>,
)
    requires
        status.phase is Pending,
        experiment.targets@.len() == 0 || experiment.duration_seconds == 0,
    ensures
        run_spec(experiment, exp_ref, status, replies) == finished(
            status,
            validation_of(experiment),
        ),
        validation_of(experiment) matches Err(DomainErrorView::Validation(_)),
        run_spec(experiment, exp_ref, status, replies).status.phase is Pending,
{
    lemma_finished_pass_stays(
        experiment,
        exp_ref,
        reconcile_spec(experiment, status),
        replies,
    );
}

/// A pending experiment with a valid specification asks for the time, and
/// once it has the time it is running: the pass is over, in success, with
/// start, end and windows computed. Whatever the outside world answers, the
/// pass never leaves the experiment in the phase `Error`.
pub proof fn lemma_valid_pending_experiment_starts(
    experiment: &ChaosExperimentSpec,
    exp_ref: ExperimentRefView,
    status: StatusView,
    replies: Seq<ReplyView>,
)
    requires
        status.phase is Pending,
        experiment.targets@.len() > 0,
        experiment.duration_seconds > 0,
    ensures
        replies.len() == 0 ==> run_spec(experiment, exp_ref, status, replies) == waiting(
            Stage::StartTime,
            status,
            RequestView::Now,
        ),
        replies.len() > 0 && replies[0] is Now ==> run_spec(experiment, exp_ref, status, replies)
            == finished(started(experiment, status, replies[0]->Now_0), Ok(())),
        replies.len() > 0 && replies[0] is Now ==> run_spec(
            experiment,
            exp_ref,
            status,
            replies,
        ).status.phase is Running,
        !(run_spec(experiment, exp_ref, status, replies).status.phase is Error),
        !(run_spec(experiment, exp_ref, status, replies).status.phase is Completed),
    decreases replies.len(),
{
    let start = reconcile_spec(experiment, status);
    if replies.len() > 0 {
        let first = replies.take(1);
        assert(first.drop_last() =~= Seq::<ReplyView>::empty());
        assert(first.last() == replies[0]);
        let after_first = run_from(experiment, exp_ref, start, first);
        assert(run_from(experiment, exp_ref, start, first.drop_last()) == start);
        assert(after_first == resume_spec(
            experiment,
            exp_ref,
            Stage::StartTime,
            status,
            replies[0],
        ));
        assert(after_first.is_finished());
        lemma_run_splits(experiment, exp_ref, start, first, replies.skip(1));
        assert(first + replies.skip(1) =~= replies);
        lemma_finished_pass_stays(experiment, exp_ref, after_first, replies.skip(1));
    }
}

/// A pass that has not ended in success leaves the phase as it was, so that
/// the next pass takes the same step again. Where the phase has changed, the
/// experiment has moved forward: from pending to running, or from running or
/// stopping to completed.
pub proof fn lemma_only_success_moves_the_phase(
    experiment: &ChaosExperimentSpec,
    exp_ref: ExperimentRefView,
    status: StatusView,
    replies: Seq<ReplyView>,
)
    ensures
        ({
            let end = run_spec(experiment, exp_ref, status, replies);
            &&& !end.succeeded() ==> end.status.phase == status.phase
            &&& phase_moved_forward(status, end)
            &&& end.status.phase is Error ==> status.phase is Error
        }),
{
    let start = reconcile_spec(experiment, status);
    lemma_run(experiment, exp_ref, start, replies);
    if start.is_finished() {
        lemma_finished_pass_stays(experiment, exp_ref, start, replies);
    }
}

/// Start, end and windows are computed once, on leaving `Pending`: a pass
/// over an experiment in any other phase leaves them as they were. A pass
/// that leaves the experiment pending leaves the whole status as it was. No
/// pass touches the snapshot.
pub proof fn lemma_schedule_is_computed_once(
    experiment: &ChaosExperimentSpec,
    exp_ref: ExperimentRefView,
    status: StatusView,
    replies: Seq<ReplyView>,
)
    ensures
        ({
            let end = run_spec(experiment, exp_ref, status, replies);
            &&& !(status.phase is Pending) ==> keeps_schedule(status, end.status)
            &&& end.status.phase is Pending ==> end.status == status
            &&& end.status.snapshot == status.snapshot
        }),
{
    lemma_run(experiment, exp_ref, reconcile_spec(experiment, status), replies);
}

/// A pass leaves a scheduled status scheduled.
pub proof fn lemma_scheduled_status_stays_scheduled(
    experiment: &ChaosExperimentSpec,
    exp_ref: ExperimentRefView,
    status: StatusView,
    replies: Seq<ReplyView>,
)
    requires
        scheduled(status),
    ensures
        scheduled(run_spec(experiment, exp_ref, status, replies).status),
{
    lemma_run(experiment, exp_ref, reconcile_spec(experiment, status), replies);
}

/// An experiment is completed only by storing its report: where a pass has
/// completed an experiment, it has asked for the report to be stored and
/// that has succeeded.
pub proof fn lemma_completion_follows_the_report(
    experiment: &ChaosExperimentSpec,
    exp_ref: ExperimentRefView,
    status: StatusView,
    replies: Seq<ReplyView>,
)
    requires
        !(status.phase is Completed),
        run_spec(experiment, exp_ref, status, replies).status.phase is Completed,
    ensures
        exists|k: int|
            0 <= k < replies.len() && (#[trigger] run_spec(
                experiment,
                exp_ref,
                status,
                replies.take(k),
            )).request is StoreReport && replies[k].confirms(),
    decreases replies.len(),
{
    let start = reconcile_spec(experiment, status);
    if replies.len() > 0 {
        let shorter = replies.drop_last();
        let before = run_from(experiment, exp_ref, start, shorter);
        lemma_first_step(experiment, status);
        lemma_coherence(experiment, exp_ref, start, shorter);
        if before.status.phase is Completed {
            lemma_completion_follows_the_report(experiment, exp_ref, status, shorter);
            let k = choose|k: int|
                0 <= k < shorter.len() && (#[trigger] run_spec(
                    experiment,
                    exp_ref,
                    status,
                    shorter.take(k),
                )).request is StoreReport && shorter[k].confirms();
            assert(shorter.take(k) =~= replies.take(k));
            assert(run_spec(experiment, exp_ref, status, replies.take(k)).request is StoreReport);
        } else {
            lemma_step(experiment, exp_ref, before.stage, before.status, replies.last());
            let k = replies.len() - 1;
            assert(replies.take(k) =~= shorter);
            assert(run_spec(experiment, exp_ref, status, replies.take(k)).request is StoreReport);
        }
    }
}

/// Every pass is over after twelve replies at most.
pub proof fn lemma_pass_ends(
    experiment: &ChaosExperimentSpec,
    exp_ref: ExperimentRefView,
    status: StatusView,
    replies: Seq<ReplyView>,
)
    requires
        replies.len() >= 12,
    ensures
        run_spec(experiment, exp_ref, status, replies).is_finished(),
{
    lemma_run(experiment, exp_ref, reconcile_spec(experiment, status), replies);
}

// The flag that tracks the mesh fault.

/// What the flag must be after a pass has taken `replies`, going by the
/// calls to the mesh alone: up if the last call that succeeded applied the
/// fault, down if it rolled the fault back, and as at the beginning if no
/// call to the mesh has succeeded.
pub open spec fn flag_by_mesh_calls(
    experiment: &ChaosExperimentSpec,
    exp_ref: ExperimentRefView,
    start: Progress,
    replies: Seq<ReplyView>,
) -> bool
    decreases replies.len(),
{
    if replies.len() == 0 {
        start.status.istio_patched
    } else {
        let before = run_from(experiment, exp_ref, start, replies.drop_last());
        if before.request is ApplyFault && replies.last().confirms() {
            true
        } else if before.request is RollbackFault && replies.last().confirms() {
            false
        } else {
            flag_by_mesh_calls(experiment, exp_ref, start, replies.drop_last())
        }
    }
}

/// The flag tracks the mesh: at every point of a pass it is up if and only
/// if the fault has been applied more recently than it has been rolled
/// back, counting the calls that succeeded, and beginning from what the
/// flag said before the pass.
pub proof fn lemma_flag_tracks_the_mesh(
    experiment: &ChaosExperimentSpec,
    exp_ref: ExperimentRefView,
    start: Progress,
    replies: Seq<ReplyView>,
)
    requires
        asks_what_it_waits_for(start),
    ensures
        run_from(experiment, exp_ref, start, replies).status.istio_patched == flag_by_mesh_calls(
            experiment,
            exp_ref,
            start,
            replies,
        ),
    decreases replies.len(),
{
    if replies.len() > 0 {
        let before = run_from(experiment, exp_ref, start, replies.drop_last());
        lemma_flag_tracks_the_mesh(experiment, exp_ref, start, replies.drop_last());
        lemma_coherence(experiment, exp_ref, start, replies.drop_last());
        if !before.is_finished() {
            lemma_step(experiment, exp_ref, before.stage, before.status, replies.last());
        }
    }
}

/// Whether a pass is finalizing with the mesh already dealt with: the flag
/// is down and no rollback is outstanding.
pub open spec fn past_rollback(p: Progress) -> bool {
    &&& asks_what_it_waits_for(p)
    &&& finalizing(p.stage)
    &&& !(p.stage is RollingBack)
    &&& !p.status.istio_patched
}

/// Once finalizing is past the rollback with the flag down, it stays so to
/// the end of the pass: no rollback is asked for and the flag stays down.
pub proof fn lemma_flag_stays_down(
    experiment: &ChaosExperimentSpec,
    exp_ref: ExperimentRefView,
    start: Progress,
    replies: Seq<ReplyView>,
)
    requires
        past_rollback(start),
    ensures
        past_rollback(run_from(experiment, exp_ref, start, replies)),
        !(run_from(experiment, exp_ref, start, replies).request is RollbackFault),
    decreases replies.len(),
{
    if replies.len() > 0 {
        let before = run_from(experiment, exp_ref, start, replies.drop_last());
        lemma_flag_stays_down(experiment, exp_ref, start, replies.drop_last());
        if !before.is_finished() {
            lemma_step(experiment, exp_ref, before.stage, before.status, replies.last());
        }
    }
}

/// Finalizing asks for a rollback first of all, and only where the
/// experiment uses the mesh and the flag says that a fault is applied. With
/// the flag down it asks for none, whatever the outside world answers, and
/// the flag is still down when the pass ends.
pub proof fn lemma_finalize_rolls_back_only_an_applied_fault(
    experiment: &ChaosExperimentSpec,
    exp_ref: ExperimentRefView,
    status: StatusView,
    replies: Seq<ReplyView>,
)
    ensures
        finalize_spec(experiment, status).request is RollbackFault <==> experiment.mode.uses_mesh()
            && status.istio_patched,
        !status.istio_patched ==> !(run_finalize(
            experiment,
            exp_ref,
            status,
            replies,
        ).request is RollbackFault),
        !status.istio_patched ==> !run_finalize(
            experiment,
            exp_ref,
            status,
            replies,
        ).status.istio_patched,
{
    if !status.istio_patched {
        lemma_flag_stays_down(experiment, exp_ref, finalize_spec(experiment, status), replies);
    }
}

/// Once a rollback that was asked for has succeeded, the flag is down, and
/// it is down at the end of the pass however the pass ends; the pass asks
/// for no second rollback.
pub proof fn lemma_successful_rollback_lowers_the_flag(
    experiment: &ChaosExperimentSpec,
    exp_ref: ExperimentRefView,
    start: Progress,
    replies: Seq<ReplyView>,
    at: int,
)
    requires
        asks_what_it_waits_for(start),
        0 <= at < replies.len(),
        run_from(experiment, exp_ref, start, replies.take(at)).request is RollbackFault,
        replies[at].confirms(),
    ensures
        !run_from(experiment, exp_ref, start, replies).status.istio_patched,
        !(run_from(experiment, exp_ref, start, replies).request is RollbackFault),
{
    let asked = run_from(experiment, exp_ref, start, replies.take(at));
    lemma_coherence(experiment, exp_ref, start, replies.take(at));
    let upto = replies.take(at + 1);
    assert(upto.drop_last() =~= replies.take(at));
    assert(upto.last() == replies[at]);
    let answered = run_from(experiment, exp_ref, start, upto);
    lemma_step(experiment, exp_ref, asked.stage, asked.status, replies[at]);
    assert(past_rollback(answered));
    lemma_run_splits(experiment, exp_ref, start, upto, replies.skip(at + 1));
    assert(upto + replies.skip(at + 1) =~= replies);
    lemma_flag_stays_down(experiment, exp_ref, answered, replies.skip(at + 1));
}

/// Finalizing is idempotent with respect to the mesh: where finalizing has
/// rolled the fault back, finalizing the resulting status again asks for no
/// rollback, however the first time has ended and whatever the outside
/// world answers the second time.
pub proof fn lemma_finalize_twice_rolls_back_once(
    experiment: &ChaosExperimentSpec,
    exp_ref: ExperimentRefView,
    status: StatusView,
    first: Seq<ReplyView>,
    at: int,
    second: Seq<ReplyView>,
)
    requires
        0 <= at < first.len(),
        run_finalize(experiment, exp_ref, status, first.take(at)).request is RollbackFault,
        first[at].confirms(),
    ensures
        !(run_finalize(
            experiment,
            exp_ref,
            run_finalize(experiment, exp_ref, status, first).status,
            second,
        ).request is RollbackFault),
{
    lemma_first_step(experiment, status);
    lemma_successful_rollback_lowers_the_flag(
        experiment,
        exp_ref,
        finalize_spec(experiment, status),
        first,
        at,
    );
    lemma_finalize_rolls_back_only_an_applied_fault(
        experiment,
        exp_ref,
        run_finalize(experiment, exp_ref, status, first).status,
        second,
    );
}

/// A pass that begins with the flag down has the flag up only where it has
/// asked for the fault to be applied and that has succeeded.
pub proof fn lemma_flag_goes_up_only_by_applying(
    experiment: &ChaosExperimentSpec,
    exp_ref: ExperimentRefView,
    status: StatusView,
    replies: Seq<ReplyView>,
)
    requires
        !status.istio_patched,
    ensures
        run_spec(experiment, exp_ref, status, replies).status.istio_patched ==> exists|k: int|
            0 <= k < replies.len() && (#[trigger] run_spec(
                experiment,
                exp_ref,
                status,
                replies.take(k),
            )).request is ApplyFault && replies[k].confirms(),
    decreases replies.len(),
{
    let start = reconcile_spec(experiment, status);
    if replies.len() > 0 {
        let shorter = replies.drop_last();
        let before = run_from(experiment, exp_ref, start, shorter);
        lemma_flag_goes_up_only_by_applying(experiment, exp_ref, status, shorter);
        lemma_first_step(experiment, status);
        lemma_coherence(experiment, exp_ref, start, shorter);
        let end = run_spec(experiment, exp_ref, status, replies);
        if end.status.istio_patched {
            if before.status.istio_patched {
                let k = choose|k: int|
                    0 <= k < shorter.len() && (#[trigger] run_spec(
                        experiment,
                        exp_ref,
                        status,
                        shorter.take(k),
                    )).request is ApplyFault && shorter[k].confirms();
                assert(shorter.take(k) =~= replies.take(k));
                assert(run_spec(experiment, exp_ref, status, replies.take(k)).request is ApplyFault);
            } else {
                lemma_step(experiment, exp_ref, before.stage, before.status, replies.last());
                let k = replies.len() - 1;
                assert(replies.take(k) =~= shorter);
                assert(run_spec(experiment, exp_ref, status, replies.take(k)).request is ApplyFault);
            }
        }
    }
}

/// A pass asks for a rollback only while the flag is up.
pub proof fn lemma_rollback_needs_the_flag(
    experiment: &ChaosExperimentSpec,
    exp_ref: ExperimentRefView,
    status: StatusView,
    replies: Seq<ReplyView>,
)
    ensures
        run_spec(experiment, exp_ref, status, replies).request is RollbackFault ==> run_spec(
            experiment,
            exp_ref,
            status,
            replies,
        ).status.istio_patched && experiment.mode.uses_mesh(),
    decreases replies.len(),
{
    if replies.len() > 0 {
        let start = reconcile_spec(experiment, status);
        let before = run_from(experiment, exp_ref, start, replies.drop_last());
        lemma_rollback_needs_the_flag(experiment, exp_ref, status, replies.drop_last());
    }
}

/// The same of whole reconciliation passes: where a pass has rolled the
/// fault back, the next pass over the resulting status asks for no rollback
/// unless it has applied the fault anew.
pub proof fn lemma_reconcile_twice_rolls_back_once(
    experiment: &ChaosExperimentSpec,
    exp_ref: ExperimentRefView,
    status: StatusView,
    first: Seq<ReplyView>,
    at: int,
    second: Seq<ReplyView>,
)
    requires
        0 <= at < first.len(),
        run_spec(experiment, exp_ref, status, first.take(at)).request is RollbackFault,
        first[at].confirms(),
    ensures
        ({
            let between = run_spec(experiment, exp_ref, status, first).status;
            let again = run_spec(experiment, exp_ref, between, second);
            &&& !between.istio_patched
            &&& again.request is RollbackFault ==> exists|k: int|
                0 <= k < second.len() && (#[trigger] run_spec(
                    experiment,
                    exp_ref,
                    between,
                    second.take(k),
                )).request is ApplyFault && second[k].confirms()
        }),
{
    lemma_first_step(experiment, status);
    lemma_successful_rollback_lowers_the_flag(
        experiment,
        exp_ref,
        reconcile_spec(experiment, status),
        first,
        at,
    );
    let between = run_spec(experiment, exp_ref, status, first).status;
    lemma_flag_goes_up_only_by_applying(experiment, exp_ref, between, second);
    let again = run_spec(experiment, exp_ref, between, second);
    if again.request is RollbackFault {
        lemma_rollback_needs_the_flag(experiment, exp_ref, between, second);
    }
}

// When a pass fails.

/// Whether a reply answers the request that a pass at `stage` has made.
pub open spec fn in_turn(stage: Stage, reply: ReplyView) -> bool {
    match stage {
        Stage::StartTime | Stage::Deadline => reply is Now,
        Stage::Applying | Stage::Starting | Stage::RollingBack | Stage::Stopping | Stage::Storing =>
            reply is Done,
        Stage::RpsBase | Stage::RpsFail { .. } | Stage::P95Base { .. } | Stage::P95Fail { .. } =>
            reply is Value,
        Stage::Scoring { .. } => reply is Impact,
        Stage::Tracing { .. } => reply is Edges,
        Stage::Finished => false,
    }
}

/// Whether a reply says that the call has failed, and the failure counts:
/// that of the lookup of edges does not.
pub open spec fn tells_of_failure(reply: ReplyView) -> bool {
    reply matches ReplyView::Done(Err(_)) || reply matches ReplyView::Value(Err(_))
}

/// A step fails only for cause. With a scheduled status, a step that is
/// handed the reply to its request ends the pass in failure only where the
/// reply tells of a failed call, or where the last sample has come in and a
/// baseline is zero or less. The error is then the call's own, or the
/// invalid-input error. A failed lookup of edges fails nothing.
pub proof fn lemma_step_fails_only_for_cause(
    experiment: &ChaosExperimentSpec,
    exp_ref: ExperimentRefView,
    stage: Stage,
    status: StatusView,
    reply: ReplyView,
)
    requires
        scheduled(status),
        !(status.phase is Pending),
        in_turn(stage, reply),
    ensures
        ({
            let next = resume_spec(experiment, exp_ref, stage, status, reply);
            &&& next.failed() <==> tells_of_failure(reply) || (stage matches Stage::P95Fail {
                rps_base,
                p95_base_ms,
                ..
            } && (rps_base.at_most_zero() || p95_base_ms.at_most_zero()))
            &&& reply matches ReplyView::Done(Err(e)) ==> next == finished(status, Err(e))
            &&& reply matches ReplyView::Value(Err(e)) ==> next == finished(status, Err(e))
            &&& next.failed() && !tells_of_failure(reply) ==> next == finished(
                status,
                Err(DomainErrorView::InvalidInput("baseline values must be > 0"@)),
            )
        }),
{
}

/// Unusable baselines fail the pass: where the baseline request rate or the
/// baseline latency is zero or less, the step that takes the last sample
/// ends the pass with an invalid-input error, leaves the status as it was,
/// and the impact is never asked for.
pub proof fn lemma_unusable_baselines_fail_the_pass(
    experiment: &ChaosExperimentSpec,
    exp_ref: ExperimentRefView,
    status: StatusView,
    samples: Samples,
)
    requires
        samples.rps_base.at_most_zero() || samples.p95_base_ms.at_most_zero(),
    ensures
        resume_spec(
            experiment,
            exp_ref,
            Stage::P95Fail {
                rps_base: samples.rps_base,
                rps_fail: samples.rps_fail,
                p95_base_ms: samples.p95_base_ms,
            },
            status,
            ReplyView::Value(Ok(samples.p95_fail_ms)),
        ) == finished(
            status,
            Err(DomainErrorView::InvalidInput("baseline values must be > 0"@)),
        ),
{
}

// When a pass succeeds.

/// The reply to the rollback, where finalizing asks for one: it has succeeded.
pub open spec fn mesh_replies(experiment: &ChaosExperimentSpec, status: StatusView) -> Seq<
    ReplyView,
> {
    if experiment.mode.uses_mesh() && status.istio_patched {
        seq![ReplyView::Done(Ok(()))]
    } else {
        seq![]
    }
}

/// The reply to the stopping of the agents, where finalizing asks for it:
/// it has succeeded.
pub open spec fn agent_replies(experiment: &ChaosExperimentSpec) -> Seq<ReplyView> {
    if experiment.mode.uses_agents() {
        seq![ReplyView::Done(Ok(()))]
    } else {
        seq![]
    }
}

/// The replies to the measuring part of finalizing, all of them good.
pub open spec fn measuring_replies(
    samples: Samples,
    impact: Measurement,
    found: Result<Seq<EdgeView>, DomainErrorView>,
) -> Seq<ReplyView> {
    seq![
        ReplyView::Value(Ok(samples.rps_base)),
        ReplyView::Value(Ok(samples.rps_fail)),
        ReplyView::Value(Ok(samples.p95_base_ms)),
        ReplyView::Value(Ok(samples.p95_fail_ms)),
        ReplyView::Impact(impact),
        ReplyView::Edges(found),
        ReplyView::Done(Ok(())),
    ]
}

/// The replies of an outside world in which every call that finalizing
/// makes succeeds: the rollback where one is asked for, the stopping of the
/// agents where they are used, the four samples, the impact, the edges (or
/// the failure to find any), and the storing of the report.
pub open spec fn replies_when_all_goes_well(
    experiment: &ChaosExperimentSpec,
    status: StatusView,
    samples: Samples,
    impact: Measurement,
    found: Result<Seq<EdgeView>, DomainErrorView>,
) -> Seq<ReplyView> {
    mesh_replies(experiment, status) + agent_replies(experiment) + measuring_replies(
        samples,
        impact,
        found,
    )
}

/// The status once finalizing has dealt with the mesh in success: the flag
/// is down where the experiment uses the mesh.
pub open spec fn with_fault_rolled_back(
    experiment: &ChaosExperimentSpec,
    status: StatusView,
) -> StatusView {
    StatusView { istio_patched: status.istio_patched && !experiment.mode.uses_mesh(), ..status }
}

/// Measuring with usable baselines, in a world where every call succeeds:
/// the baseline samples are fetched over the baseline window and the
/// samples under failure over the failure window, the impact of the four
/// is asked for, the edges are looked up over the failure window, the
/// report that is handed over for storing is the report of the experiment,
/// and the experiment is completed.
pub proof fn lemma_measuring_completes(
    experiment: &ChaosExperimentSpec,
    exp_ref: ExperimentRefView,
    status: StatusView,
    samples: Samples,
    impact: Measurement,
    found: Result<Seq<EdgeView>, DomainErrorView>,
)
    requires
        status.baseline_window is Some,
        status.failure_window is Some,
        !samples.rps_base.at_most_zero(),
        !samples.p95_base_ms.at_most_zero(),
    ensures
        ({
            let replies = measuring_replies(samples, impact, found);
            let start = after_stop(status);
            &&& run_from(experiment, exp_ref, start, replies) == finished(
                StatusView { phase: Phase::Completed, ..status },
                Ok(()),
            )
            &&& run_from(experiment, exp_ref, start, replies.drop_last()).request == (
            RequestView::StoreReport {
                report: report_of(
                    experiment,
                    exp_ref,
                    status.baseline_window->Some_0,
                    status.failure_window->Some_0,
                    samples,
                    impact,
                    edges_or_none(found),
                ),
            })
            &&& run_from(experiment, exp_ref, start, replies.take(0)).request == (
            RequestView::FetchValue {
                query: "rps_base"@,
                window: status.baseline_window->Some_0,
            })
            &&& run_from(experiment, exp_ref, start, replies.take(1)).request == (
            RequestView::FetchValue {
                query: "rps_fail"@,
                window: status.failure_window->Some_0,
            })
            &&& run_from(experiment, exp_ref, start, replies.take(2)).request == (
            RequestView::FetchValue {
                query: "p95_base"@,
                window: status.baseline_window->Some_0,
            })
            &&& run_from(experiment, exp_ref, start, replies.take(3)).request == (
            RequestView::FetchValue {
                query: "p95_fail"@,
                window: status.failure_window->Some_0,
            })
            &&& run_from(experiment, exp_ref, start, replies.take(4)).request == (
            RequestView::Impact { samples })
            &&& run_from(experiment, exp_ref, start, replies.take(5)).request == (
            RequestView::FetchEdges { window: status.failure_window->Some_0 })
        }),
{
    let replies = measuring_replies(samples, impact, found);
    let start = after_stop(status);
    let b = status.baseline_window->Some_0;
    let f = status.failure_window->Some_0;
    let a1 = ReplyView::Value(Ok(samples.rps_base));
    let a2 = ReplyView::Value(Ok(samples.rps_fail));
    let a3 = ReplyView::Value(Ok(samples.p95_base_ms));
    let a4 = ReplyView::Value(Ok(samples.p95_fail_ms));
    let a5 = ReplyView::Impact(impact);
    let a6 = ReplyView::Edges(found);
    let a7 = ReplyView::Done(Ok(()));
    let r0 = Seq::<ReplyView>::empty();
    let r1 = r0.push(a1);
    let r2 = r1.push(a2);
    let r3 = r2.push(a3);
    let r4 = r3.push(a4);
    let r5 = r4.push(a5);
    let r6 = r5.push(a6);
    let r7 = r6.push(a7);
    let s1 = Stage::RpsFail { rps_base: samples.rps_base };
    let s2 = Stage::P95Base { rps_base: samples.rps_base, rps_fail: samples.rps_fail };
    let s3 = Stage::P95Fail {
        rps_base: samples.rps_base,
        rps_fail: samples.rps_fail,
        p95_base_ms: samples.p95_base_ms,
    };
    let at0 = run_from(experiment, exp_ref, start, r0);
    assert(at0 == waiting(
        Stage::RpsBase,
        status,
        RequestView::FetchValue { query: "rps_base"@, window: b },
    ));
    let at1 = run_from(experiment, exp_ref, start, r1);
    assert(at1 == waiting(s1, status, RequestView::FetchValue { query: "rps_fail"@, window: f }))
        by {
        lemma_one_more_reply(experiment, exp_ref, start, r0, a1);
    }
    let at2 = run_from(experiment, exp_ref, start, r2);
    assert(at2 == waiting(s2, status, RequestView::FetchValue { query: "p95_base"@, window: b }))
        by {
        lemma_one_more_reply(experiment, exp_ref, start, r1, a2);
    }
    let at3 = run_from(experiment, exp_ref, start, r3);
    assert(at3 == waiting(s3, status, RequestView::FetchValue { query: "p95_fail"@, window: f }))
        by {
        lemma_one_more_reply(experiment, exp_ref, start, r2, a3);
    }
    let at4 = run_from(experiment, exp_ref, start, r4);
    assert(at4 == waiting(Stage::Scoring { samples }, status, RequestView::Impact { samples }))
        by {
        lemma_one_more_reply(experiment, exp_ref, start, r3, a4);
    }
    let at5 = run_from(experiment, exp_ref, start, r5);
    assert(at5 == waiting(
        Stage::Tracing { samples, impact },
        status,
        RequestView::FetchEdges { window: f },
    )) by {
        lemma_one_more_reply(experiment, exp_ref, start, r4, a5);
    }
    let at6 = run_from(experiment, exp_ref, start, r6);
    assert(at6 == waiting(
        Stage::Storing,
        status,
        RequestView::StoreReport {
            report: report_of(experiment, exp_ref, b, f, samples, impact, edges_or_none(found)),
        },
    )) by {
        lemma_one_more_reply(experiment, exp_ref, start, r5, a6);
    }
    let at7 = run_from(experiment, exp_ref, start, r7);
    assert(at7 == finished(StatusView { phase: Phase::Completed, ..status }, Ok(()))) by {
        lemma_one_more_reply(experiment, exp_ref, start, r6, a7);
    }
    assert(r7 =~= replies);
    assert(replies.drop_last() =~= r6);
    assert(replies.take(0) =~= r0);
    assert(replies.take(1) =~= r1);
    assert(replies.take(2) =~= r2);
    assert(replies.take(3) =~= r3);
    assert(replies.take(4) =~= r4);
    assert(replies.take(5) =~= r5);
}

/// The mesh part of finalizing, where the rollback succeeds.
proof fn lemma_mesh_part(
    experiment: &ChaosExperimentSpec,
    exp_ref: ExperimentRefView,
    status: StatusView,
)
    ensures
        run_from(
            experiment,
            exp_ref,
            finalize_spec(experiment, status),
            mesh_replies(experiment, status),
        ) == after_rollback(experiment, with_fault_rolled_back(experiment, status)),
{
    let none = Seq::<ReplyView>::empty();
    let ok = ReplyView::Done(Ok(()));
    if experiment.mode.uses_mesh() && status.istio_patched {
        assert(mesh_replies(experiment, status) =~= none.push(ok));
        lemma_one_more_reply(experiment, exp_ref, finalize_spec(experiment, status), none, ok);
    } else {
        assert(with_fault_rolled_back(experiment, status) == status);
    }
}

/// The agents part of finalizing, where the stopping succeeds.
proof fn lemma_agents_part(
    experiment: &ChaosExperimentSpec,
    exp_ref: ExperimentRefView,
    status: StatusView,
)
    ensures
        run_from(
            experiment,
            exp_ref,
            after_rollback(experiment, status),
            agent_replies(experiment),
        ) == after_stop(status),
{
    let none = Seq::<ReplyView>::empty();
    let ok = ReplyView::Done(Ok(()));
    if experiment.mode.uses_agents() {
        assert(agent_replies(experiment) =~= none.push(ok));
        lemma_one_more_reply(experiment, exp_ref, after_rollback(experiment, status), none, ok);
    }
}

/// Finalizing in a world where every call succeeds, with usable baselines
/// and both windows at hand: the experiment is completed, the flag is down
/// where the experiment uses the mesh, and the report that was handed over
/// for storing is the report of the experiment.
pub proof fn lemma_finalize_completes(
    experiment: &ChaosExperimentSpec,
    exp_ref: ExperimentRefView,
    status: StatusView,
    samples: Samples,
    impact: Measurement,
    found: Result<Seq<EdgeView>, DomainErrorView>,
)
    requires
        status.baseline_window is Some,
        status.failure_window is Some,
        !samples.rps_base.at_most_zero(),
        !samples.p95_base_ms.at_most_zero(),
    ensures
        ({
            let replies = replies_when_all_goes_well(experiment, status, samples, impact, found);
            &&& run_finalize(experiment, exp_ref, status, replies) == finished(
                StatusView {
                    phase: Phase::Completed,
                    ..with_fault_rolled_back(experiment, status)
                },
                Ok(()),
            )
            &&& run_finalize(experiment, exp_ref, status, replies.drop_last()).request == (
            RequestView::StoreReport {
                report: report_of(
                    experiment,
                    exp_ref,
                    status.baseline_window->Some_0,
                    status.failure_window->Some_0,
                    samples,
                    impact,
                    edges_or_none(found),
                ),
            })
        }),
{
    let start = finalize_spec(experiment, status);
    let mesh = mesh_replies(experiment, status);
    let agents = agent_replies(experiment);
    let measuring = measuring_replies(samples, impact, found);
    let lowered = with_fault_rolled_back(experiment, status);
    let replies = replies_when_all_goes_well(experiment, status, samples, impact, found);
    let measured = after_stop(lowered);
    assert(run_from(experiment, exp_ref, start, mesh + agents) == measured) by {
        lemma_mesh_part(experiment, exp_ref, status);
        lemma_agents_part(experiment, exp_ref, lowered);
        lemma_run_splits(experiment, exp_ref, start, mesh, agents);
    }
    assert(run_from(experiment, exp_ref, start, replies) == run_from(
        experiment,
        exp_ref,
        measured,
        measuring,
    )) by {
        lemma_run_splits(experiment, exp_ref, start, mesh + agents, measuring);
    }
    assert(run_from(experiment, exp_ref, start, replies.drop_last()) == run_from(
        experiment,
        exp_ref,
        measured,
        measuring.drop_last(),
    )) by {
        lemma_run_splits(experiment, exp_ref, start, mesh + agents, measuring.drop_last());
        assert(replies.drop_last() =~= mesh + agents + measuring.drop_last());
    }
    assert(run_from(experiment, exp_ref, measured, measuring) == finished(
        StatusView { phase: Phase::Completed, ..lowered },
        Ok(()),
    ) && run_from(experiment, exp_ref, measured, measuring.drop_last()).request == (
    RequestView::StoreReport {
        report: report_of(
            experiment,
            exp_ref,
            status.baseline_window->Some_0,
            status.failure_window->Some_0,
            samples,
            impact,
            edges_or_none(found),
        ),
    })) by {
        lemma_measuring_completes(experiment, exp_ref, lowered, samples, impact, found);
    }
}

/// The reply to the applying of the fault, where a running pass asks for
/// it: it has succeeded.
pub open spec fn apply_replies(experiment: &ChaosExperimentSpec, status: StatusView) -> Seq<
    ReplyView,
> {
    if experiment.mode.uses_mesh() && !status.istio_patched {
        seq![ReplyView::Done(Ok(()))]
    } else {
        seq![]
    }
}

/// The status once a running pass has dealt with the mesh in success: the
/// flag is up where the experiment uses the mesh.
pub open spec fn with_fault_applied(
    experiment: &ChaosExperimentSpec,
    status: StatusView,
) -> StatusView {
    StatusView { istio_patched: status.istio_patched || experiment.mode.uses_mesh(), ..status }
}

/// A pass over a running experiment, in a world where applying the fault
/// and starting the agents succeed. The agents are started on every such
/// pass, whether or not they were started before. Then the clock decides:
/// before the end of the experiment the pass is over, in success, and all
/// that may have changed is that the flag is up; at the end or after it the
/// pass goes on as finalizing does.
pub proof fn lemma_running_pass(
    experiment: &ChaosExperimentSpec,
    exp_ref: ExperimentRefView,
    status: StatusView,
    now: crate::time::Timestamp,
)
    requires
        status.phase is Running,
        status.ends_at is Some,
    ensures
        ({
            let mesh = apply_replies(experiment, status);
            let agents = agent_replies(experiment);
            let applied = with_fault_applied(experiment, status);
            let asked = run_spec(experiment, exp_ref, status, mesh + agents);
            let told = run_spec(experiment, exp_ref, status, (mesh + agents).push(ReplyView::Now(now)));
            &&& experiment.mode.uses_agents() ==> run_spec(
                experiment,
                exp_ref,
                status,
                mesh,
            ).request is StartLoad
            &&& asked == waiting(Stage::Deadline, applied, RequestView::Now)
            &&& told == (if now.at_or_after(status.ends_at->Some_0) {
                finalize_spec(experiment, applied)
            } else {
                finished(applied, Ok(()))
            })
        }),
{
    let start = reconcile_spec(experiment, status);
    let mesh = apply_replies(experiment, status);
    let agents = agent_replies(experiment);
    let applied = with_fault_applied(experiment, status);
    let none = Seq::<ReplyView>::empty();
    let ok = ReplyView::Done(Ok(()));
    let after_mesh = run_from(experiment, exp_ref, start, mesh);
    assert(after_mesh == maybe_start_agents_spec(experiment, applied)) by {
        if experiment.mode.uses_mesh() && !status.istio_patched {
            assert(mesh =~= none.push(ok));
            lemma_one_more_reply(experiment, exp_ref, start, none, ok);
        } else {
            assert(applied == status);
        }
    }
    let after_agents = run_from(experiment, exp_ref, after_mesh, agents);
    assert(after_agents == after_start(applied)) by {
        if experiment.mode.uses_agents() {
            assert(agents =~= none.push(ok));
            lemma_one_more_reply(experiment, exp_ref, after_mesh, none, ok);
        }
    }
    lemma_run_splits(experiment, exp_ref, start, mesh, agents);
    lemma_one_more_reply(experiment, exp_ref, start, mesh + agents, ReplyView::Now(now));
}

} // verus!
