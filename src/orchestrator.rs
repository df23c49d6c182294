use vstd::prelude::*;
use crate::outcome::{Outcome, OutcomeView};
use crate::table::{
    all_recorded, empty_slots, phase_done, record_outcome, report_rows, RecordError, ResultTable,
};
use crate::task::{standard_registry, task_phase, Phase, TaskId};

verus! {

/// Where a run stands.
#[derive(Clone, Copy, PartialEq, Eq, Structural, Debug)]
pub enum Stage {
    Init,
    Sequential,
    Parallel,
    Joined,
    Reported,
}

/// Why the orchestrator refused a step.
#[derive(Clone, Copy, PartialEq, Eq, Structural, Debug)]
pub enum StepError {
    /// The step does not belong to the current stage.
    WrongStage,
    /// Some task whose outcome the step waits for has none yet.
    Incomplete,
    /// The table refused the outcome.
    Record(RecordError),
}

/// The tasks of a phase, in report order.
pub open spec fn phase_tasks(phase: Phase) -> Seq<TaskId> {
    match phase {
        Phase::Sequential => seq![TaskId::Mirror, TaskId::Packages],
        Phase::Parallel => seq![
            TaskId::Prune,
            TaskId::Orphans,
            TaskId::Cache,
            TaskId::Docker,
            TaskId::Rust,
        ],
    }
}

/// The stage whose tasks may report: sequential tasks while the sequential phase
/// runs, parallel ones while the parallel phase runs.
pub open spec fn accepts(stage: Stage, task: TaskId) -> bool {
    (stage == Stage::Sequential && task_phase(task) == Phase::Sequential) || (stage
        == Stage::Parallel && task_phase(task) == Phase::Parallel)
}

/// The tasks of `phase`, in the order in which they are launched.
pub fn tasks_of(phase: Phase) -> (r: Vec<TaskId>)
    ensures
        r@ == phase_tasks(phase),
        forall|t: TaskId| r@.contains(t) <==> task_phase(t) == phase,
{
    let r = match phase {
        Phase::Sequential => vec![TaskId::Mirror, TaskId::Packages],
        Phase::Parallel => vec![
            TaskId::Prune,
            TaskId::Orphans,
            TaskId::Cache,
            TaskId::Docker,
            TaskId::Rust,
        ],
    };
    assert(r@ =~= phase_tasks(phase));
    assert forall|t: TaskId| r@.contains(t) <==> task_phase(t) == phase by {
        if task_phase(t) == phase {
            match t {
                TaskId::Mirror => assert(r@[0] == t),
                TaskId::Packages => assert(r@[1] == t),
                TaskId::Prune => assert(r@[0] == t),
                TaskId::Orphans => assert(r@[1] == t),
                TaskId::Cache => assert(r@[2] == t),
                TaskId::Docker => assert(r@[3] == t),
                TaskId::Rust => assert(r@[4] == t),
            }
        }
    }
    r
}

/// One run: the table of outcomes and the stage the run has reached.
pub struct Orchestrator {
    stage: Stage,
    table: ResultTable,
}

impl Orchestrator {
    /// The stage the run has reached.
    pub closed spec fn stage(&self) -> Stage {
        self.stage
    }

    /// The tasks of the run, in report order.
    pub closed spec fn registry(&self) -> Seq<TaskId> {
        self.table.registry()
    }

    /// The outcomes recorded so far, one slot per task.
    pub closed spec fn slots(&self) -> Seq<Option<OutcomeView>> {
        self.table.slots()
    }

    /// The run holds every task once, and once joined it has every outcome.
    pub open spec fn wf(&self) -> bool {
        &&& self.registry() == standard_registry()
        &&& self.registry().no_duplicates()
        &&& self.slots().len() == self.registry().len()
        &&& (self.stage() == Stage::Joined || self.stage() == Stage::Reported) ==> all_recorded(
            self.slots(),
        )
    }

    /// A run that has not started, with no outcomes.
    pub fn new() -> (r: Orchestrator)
        ensures
            r.wf(),
            r.stage() == Stage::Init,
            r.slots() == empty_slots(7),
    {
        Orchestrator { stage: Stage::Init, table: ResultTable::standard() }
    }

    /// The stage the run has reached.
    pub fn current_stage(&self) -> (r: Stage)
        ensures
            r == self.stage(),
    {
        self.stage
    }

    /// Starts the sequential phase.
    pub fn begin(&mut self) -> (r: Result<(), StepError>)
        requires
            old(self).wf(),
        ensures
            final(self).wf(),
            final(self).slots() == old(self).slots(),
            r is Ok <==> old(self).stage() == Stage::Init,
            r is Err ==> r == Err::<(), StepError>(StepError::WrongStage) && final(self).stage()
                == old(self).stage(),
            r is Ok ==> final(self).stage() == Stage::Sequential,
    {
        if self.stage == Stage::Init {
            self.stage = Stage::Sequential;
            Ok(())
        } else {
            Err(StepError::WrongStage)
        }
    }

    /// Records the outcome of a task of the phase that is running.
    pub fn record(&mut self, task: TaskId, outcome: Outcome) -> (r: Result<(), StepError>)
        requires
            old(self).wf(),
        ensures
            final(self).wf(),
            final(self).stage() == old(self).stage(),
            !accepts(old(self).stage(), task) ==> r == Err::<(), StepError>(StepError::WrongStage)
                && final(self).slots() == old(self).slots(),
            accepts(old(self).stage(), task) ==> {
                &&& final(self).slots() == record_outcome(
                    old(self).registry(),
                    old(self).slots(),
                    task,
                    outcome@,
                )
                &&& (r is Ok || r == Err::<(), StepError>(
                    StepError::Record(RecordError::AlreadyRecorded),
                ))
                &&& (r is Ok <==> old(self).slots()[old(self).registry().index_of(task)] is None)
            },
    {
        let accepted = match (self.stage, task.phase()) {
            (Stage::Sequential, Phase::Sequential) => true,
            (Stage::Parallel, Phase::Parallel) => true,
            _ => false,
        };
        if !accepted {
            return Err(StepError::WrongStage);
        }
        let ghost reg = self.table.registry();
        proof {
            assert(reg.contains(task)) by {
                match task {
                    TaskId::Mirror => assert(reg[0] == task),
                    TaskId::Packages => assert(reg[1] == task),
                    TaskId::Prune => assert(reg[2] == task),
                    TaskId::Orphans => assert(reg[3] == task),
                    TaskId::Cache => assert(reg[4] == task),
                    TaskId::Docker => assert(reg[5] == task),
                    TaskId::Rust => assert(reg[6] == task),
                }
            }
            reg.index_of_first_ensures(task);
        }
        match self.table.record(task, outcome) {
            Ok(()) => Ok(()),
            Err(e) => Err(StepError::Record(e)),
        }
    }

    /// Ends the sequential phase and starts the parallel one, once every
    /// sequential task has its outcome.
    pub fn launch_parallel(&mut self) -> (r: Result<(), StepError>)
        requires
            old(self).wf(),
        ensures
            final(self).wf(),
            final(self).slots() == old(self).slots(),
            old(self).stage() != Stage::Sequential ==> r == Err::<(), StepError>(
                StepError::WrongStage,
            ),
            old(self).stage() == Stage::Sequential && !phase_done(
                old(self).registry(),
                old(self).slots(),
                Phase::Sequential,
            ) ==> r == Err::<(), StepError>(StepError::Incomplete),
            r is Ok <==> old(self).stage() == Stage::Sequential && phase_done(
                old(self).registry(),
                old(self).slots(),
                Phase::Sequential,
            ),
            final(self).stage() == if r is Ok {
                Stage::Parallel
            } else {
                old(self).stage()
            },
    {
        if self.stage != Stage::Sequential {
            return Err(StepError::WrongStage);
        }
        if !self.table.phase_recorded(Phase::Sequential) {
            return Err(StepError::Incomplete);
        }
        self.stage = Stage::Parallel;
        Ok(())
    }

    /// Waits out the parallel phase: succeeds once every task has its outcome.
    pub fn join(&mut self) -> (r: Result<(), StepError>)
        requires
            old(self).wf(),
        ensures
            final(self).wf(),
            final(self).slots() == old(self).slots(),
            old(self).stage() != Stage::Parallel ==> r == Err::<(), StepError>(
                StepError::WrongStage,
            ),
            old(self).stage() == Stage::Parallel && !all_recorded(old(self).slots()) ==> r == Err::<
                (),
                StepError,
            >(StepError::Incomplete),
            r is Ok <==> old(self).stage() == Stage::Parallel && all_recorded(old(self).slots()),
            final(self).stage() == if r is Ok {
                Stage::Joined
            } else {
                old(self).stage()
            },
    {
        if self.stage != Stage::Parallel {
            return Err(StepError::WrongStage);
        }
        if !self.table.is_complete() {
            return Err(StepError::Incomplete);
        }
        self.stage = Stage::Joined;
        Ok(())
    }

    /// Hands the joined run's table over as report rows, in report order.
    pub fn report(&mut self) -> (r: Result<Vec<String>, StepError>)
        requires
            old(self).wf(),
        ensures
            final(self).wf(),
            final(self).slots() == old(self).slots(),
            r is Ok <==> old(self).stage() == Stage::Joined,
            r is Err ==> r == Err::<Vec<String>, StepError>(StepError::WrongStage)
                && final(self).stage() == old(self).stage(),
            r matches Ok(rows) ==> {
                &&& final(self).stage() == Stage::Reported
                &&& all_recorded(old(self).slots())
                &&& rows@.map_values(|s: String| s@) == report_rows(
                    standard_registry(),
                    old(self).slots(),
                )
            },
    {
        if self.stage != Stage::Joined {
            return Err(StepError::WrongStage);
        }
        self.stage = Stage::Reported;
        Ok(self.table.rows())
    }
}

} // verus!
