use vstd::prelude::*;
use vstd::string::*;
use crate::outcome::{rendered, Outcome, OutcomeView};
use crate::task::{standard_registry, task_name, task_phase, Phase, TaskId};
use crate::text::{pad_right, padded};

verus! {

/// Width of the first report column.
pub const NAME_WIDTH: usize = 15;

/// Width of the second report column.
pub const RESULT_WIDTH: usize = 40;

/// Why an outcome was not recorded.
#[derive(Clone, Copy, PartialEq, Eq, Structural, Debug)]
pub enum RecordError {
    /// The table has no entry for that task.
    NotRegistered,
    /// The task's outcome is already in the table.
    AlreadyRecorded,
}

/// No outcome yet for any of `n` tasks.
pub open spec fn empty_slots(n: nat) -> Seq<Option<OutcomeView>> {
    Seq::new(n, |j: int| None)
}

/// An outcome for `t` may be written: `t` is registered and has none yet.
pub open spec fn may_record(reg: Seq<TaskId>, slots: Seq<Option<OutcomeView>>, t: TaskId) -> bool {
    reg.contains(t) && forall|j: int| 0 <= j < reg.len() && reg[j] == t ==> slots[j] is None
}

/// The slots after offering outcome `o` for task `t`: written where `t` may be
/// recorded, unchanged otherwise.
pub open spec fn record_outcome(
    reg: Seq<TaskId>,
    slots: Seq<Option<OutcomeView>>,
    t: TaskId,
    o: OutcomeView,
) -> Seq<Option<OutcomeView>> {
    if may_record(reg, slots, t) {
        Seq::new(slots.len(), |j: int| if reg[j] == t { Some(o) } else { slots[j] })
    } else {
        slots
    }
}

/// Every registered task has its outcome.
pub open spec fn all_recorded(slots: Seq<Option<OutcomeView>>) -> bool {
    forall|j: int| 0 <= j < slots.len() ==> slots[j] is Some
}

/// Every registered task of phase `phase` has its outcome.
pub open spec fn phase_done(reg: Seq<TaskId>, slots: Seq<Option<OutcomeView>>, phase: Phase) -> bool {
    forall|j: int| 0 <= j < reg.len() && task_phase(reg[j]) == phase ==> slots[j] is Some
}

/// What the report shows for a slot: the rendered outcome, or nothing.
pub open spec fn slot_text(s: Option<OutcomeView>) -> Seq<char> {
    match s {
        Some(o) => rendered(o),
        None => Seq::empty(),
    }
}

/// One report row: the task's label and its result, each left-justified in its column.
pub open spec fn report_row(t: TaskId, s: Option<OutcomeView>) -> Seq<char> {
    padded(task_name(t), NAME_WIDTH as nat) + "  "@ + padded(slot_text(s), RESULT_WIDTH as nat)
}

/// The report rows, one per registered task, in registry order.
pub open spec fn report_rows(reg: Seq<TaskId>, slots: Seq<Option<OutcomeView>>) -> Seq<Seq<char>> {
    Seq::new(reg.len(), |j: int| report_row(reg[j], slots[j]))
}

/// The slots after offering, one after another in the order of `order`, the
/// outcome that `outcomes` gives each task.
pub open spec fn record_all(
    reg: Seq<TaskId>,
    slots: Seq<Option<OutcomeView>>,
    order: Seq<TaskId>,
    outcomes: Map<TaskId, OutcomeView>,
) -> Seq<Option<OutcomeView>>
    decreases order.len(),
{
    if order.len() == 0 {
        slots
    } else {
        record_all(
            reg,
            record_outcome(reg, slots, order[0], outcomes[order[0]]),
            order.drop_first(),
            outcomes,
        )
    }
}

proof fn lemma_record_all(
    reg: Seq<TaskId>,
    slots: Seq<Option<OutcomeView>>,
    order: Seq<TaskId>,
    outcomes: Map<TaskId, OutcomeView>,
)
    requires
        reg.no_duplicates(),
        slots.len() == reg.len(),
        order.no_duplicates(),
        forall|j: int| 0 <= j < reg.len() && order.contains(reg[j]) ==> slots[j] is None,
    ensures
        record_all(reg, slots, order, outcomes).len() == reg.len(),
        forall|j: int|
            0 <= j < reg.len() ==> record_all(reg, slots, order, outcomes)[j] == if order.contains(
                reg[j],
            ) {
                Some(outcomes[reg[j]])
            } else {
                slots[j]
            },
    decreases order.len(),
{
    if order.len() > 0 {
        let t = order[0];
        let rest = order.drop_first();
        let next = record_outcome(reg, slots, t, outcomes[t]);
        assert(order.contains(t));
        assert(!rest.contains(t)) by {
            if rest.contains(t) {
                let k = choose|k: int| 0 <= k < rest.len() && rest[k] == t;
                assert(order[k + 1] == order[0]);
            }
        }
        assert forall|x: TaskId| order.contains(x) <==> (x == t || rest.contains(x)) by {
            if order.contains(x) && x != t {
                let k = choose|k: int| 0 <= k < order.len() && order[k] == x;
                assert(rest[k - 1] == x);
            }
            if rest.contains(x) {
                let k = choose|k: int| 0 <= k < rest.len() && rest[k] == x;
                assert(order[k + 1] == x);
            }
        }
        assert forall|j: int| 0 <= j < reg.len() implies next[j] == if reg[j] == t {
            Some(outcomes[t])
        } else {
            slots[j]
        } by {
            if reg[j] == t {
                assert(may_record(reg, slots, t));
            }
        }
        assert(rest.no_duplicates()) by {
            assert forall|a: int, b: int|
                0 <= a < rest.len() && 0 <= b < rest.len() && a != b implies rest[a] != rest[b] by {
                assert(rest[a] == order[a + 1] && rest[b] == order[b + 1]);
            }
        }
        lemma_record_all(reg, next, rest, outcomes);
    }
}

/// However the outcomes of a run arrive, when each registered task offers its
/// outcome once, the table ends up holding exactly that outcome for every
/// registered task: none missing, none doubled.
pub proof fn lemma_run_records_each_task_once(
    reg: Seq<TaskId>,
    order: Seq<TaskId>,
    outcomes: Map<TaskId, OutcomeView>,
)
    requires
        reg.no_duplicates(),
        order.no_duplicates(),
        forall|t: TaskId| order.contains(t) <==> reg.contains(t),
    ensures
        record_all(reg, empty_slots(reg.len()), order, outcomes) == reg.map_values(
            |t: TaskId| Some(outcomes[t]),
        ),
        all_recorded(record_all(reg, empty_slots(reg.len()), order, outcomes)),
{
    lemma_record_all(reg, empty_slots(reg.len()), order, outcomes);
    assert forall|j: int| 0 <= j < reg.len() implies order.contains(reg[j]) by {
        assert(reg.contains(reg[j]));
    }
    assert(record_all(reg, empty_slots(reg.len()), order, outcomes) =~= reg.map_values(
        |t: TaskId| Some(outcomes[t]),
    ));
}

/// The report lists the tasks in registry order, whatever the order in which
/// their outcomes were recorded.
pub proof fn lemma_report_order_fixed(
    reg: Seq<TaskId>,
    order: Seq<TaskId>,
    outcomes: Map<TaskId, OutcomeView>,
)
    requires
        reg.no_duplicates(),
        order.no_duplicates(),
        forall|t: TaskId| order.contains(t) <==> reg.contains(t),
    ensures
        report_rows(reg, record_all(reg, empty_slots(reg.len()), order, outcomes)) == Seq::new(
            reg.len(),
            |j: int| report_row(reg[j], Some(outcomes[reg[j]])),
        ),
{
    lemma_run_records_each_task_once(reg, order, outcomes);
    assert(report_rows(reg, record_all(reg, empty_slots(reg.len()), order, outcomes)) =~= Seq::new(
        reg.len(),
        |j: int| report_row(reg[j], Some(outcomes[reg[j]])),
    ));
}

/// Once the sequential tasks have their outcomes, the parallel phase fills the
/// table whatever the order in which its tasks finish: each of them offering its
/// outcome once leaves no task without one.
pub proof fn lemma_parallel_phase_completes(
    reg: Seq<TaskId>,
    slots: Seq<Option<OutcomeView>>,
    order: Seq<TaskId>,
    outcomes: Map<TaskId, OutcomeView>,
)
    requires
        reg.no_duplicates(),
        slots.len() == reg.len(),
        phase_done(reg, slots, Phase::Sequential),
        forall|j: int| 0 <= j < reg.len() && task_phase(reg[j]) == Phase::Parallel ==> slots[j] is None,
        order.no_duplicates(),
        forall|t: TaskId| order.contains(t) <==> (reg.contains(t) && task_phase(t) == Phase::Parallel),
    ensures
        all_recorded(record_all(reg, slots, order, outcomes)),
        forall|j: int|
            0 <= j < reg.len() && task_phase(reg[j]) == Phase::Parallel ==> record_all(
                reg,
                slots,
                order,
                outcomes,
            )[j] == Some(outcomes[reg[j]]),
{
    assert forall|j: int| 0 <= j < reg.len() && order.contains(reg[j]) implies slots[j] is None by {
        assert(reg.contains(reg[j]));
    }
    lemma_record_all(reg, slots, order, outcomes);
    assert forall|j: int| 0 <= j < reg.len() implies (order.contains(reg[j]) <==> task_phase(reg[j])
        == Phase::Parallel) by {
        assert(reg.contains(reg[j]));
    }
}

/// The outcomes of one run, one slot per registered task.
pub struct ResultTable {
    tasks: Vec<TaskId>,
    entries: Vec<Option<Outcome>>,
}

impl ResultTable {
    /// The registered tasks, in report order.
    pub closed spec fn registry(&self) -> Seq<TaskId> {
        self.tasks@
    }

    /// The outcome recorded for each registered task, in the same order.
    pub closed spec fn slots(&self) -> Seq<Option<OutcomeView>> {
        self.entries@.map_values(|e: Option<Outcome>| match e {
            Some(o) => Some(o@),
            None => None,
        })
    }

    /// One slot per task, and no task registered twice.
    pub open spec fn wf(&self) -> bool {
        &&& self.slots().len() == self.registry().len()
        &&& self.registry().no_duplicates()
    }

    /// An empty table for the given tasks.
    pub fn new(registry: Vec<TaskId>) -> (r: ResultTable)
        requires
            registry@.no_duplicates(),
        ensures
            r.wf(),
            r.registry() == registry@,
            r.slots() == empty_slots(registry@.len()),
    {
        let mut entries: Vec<Option<Outcome>> = Vec::new();
        let mut i: usize = 0;
        while i < registry.len()
            invariant
                i <= registry.len(),
                entries@.len() == i,
                forall|j: int| 0 <= j < i ==> entries@[j] is None,
            decreases registry.len() - i,
        {
            entries.push(None);
            i = i + 1;
        }
        let r = ResultTable { tasks: registry, entries };
        assert(r.slots() =~= empty_slots(r.tasks@.len()));
        r
    }

    /// An empty table for every task, in report order.
    pub fn standard() -> (r: ResultTable)
        ensures
            r.wf(),
            r.registry() == standard_registry(),
            r.slots() == empty_slots(7),
    {
        let all = TaskId::all();
        assert(all@.no_duplicates()) by {
            assert forall|i: int, j: int|
                0 <= i < all@.len() && 0 <= j < all@.len() && i != j implies all@[i] != all@[j] by {
            }
        }
        ResultTable::new(all)
    }

    /// Writes the outcome of `task`, once: a task that is not registered, or that
    /// already has its outcome, leaves the table unchanged.
    pub fn record(&mut self, task: TaskId, outcome: Outcome) -> (r: Result<(), RecordError>)
        requires
            old(self).wf(),
        ensures
            final(self).wf(),
            final(self).registry() == old(self).registry(),
            final(self).slots() == record_outcome(
                old(self).registry(),
                old(self).slots(),
                task,
                outcome@,
            ),
            r is Ok <==> may_record(old(self).registry(), old(self).slots(), task),
            r == Err::<(), RecordError>(RecordError::NotRegistered) <==> !old(self).registry().contains(
                task,
            ),
            r == Err::<(), RecordError>(RecordError::AlreadyRecorded) <==> (old(self).registry().contains(task)
                && !may_record(old(self).registry(), old(self).slots(), task)),
    {
        let ghost reg = self.tasks@;
        let ghost before = self.slots();
        let mut i: usize = 0;
        while i < self.tasks.len()
            invariant
                i <= self.tasks.len(),
                self.tasks@ == reg,
                self.slots() == before,
                reg == old(self).registry(),
                before == old(self).slots(),
                reg.no_duplicates(),
                before.len() == reg.len(),
                forall|j: int| 0 <= j < i ==> reg[j] != task,
            decreases self.tasks.len() - i,
        {
            if self.tasks[i] == task {
                let is_empty = self.entries[i].is_none();
                if !is_empty {
                    assert(!may_record(reg, before, task)) by {
                        assert(before[i as int] is Some);
                    }
                    return Err(RecordError::AlreadyRecorded);
                }
                assert(reg.contains(task)) by {
                    assert(reg[i as int] == task);
                }
                assert forall|j: int| 0 <= j < reg.len() && reg[j] == task implies before[j] is None by {
                    assert(j == i as int);
                }
                self.entries.set(i, Some(outcome));
                assert(self.slots() =~= record_outcome(reg, before, task, outcome@));
                return Ok(());
            }
            i = i + 1;
        }
        assert(!reg.contains(task));
        Err(RecordError::NotRegistered)
    }

    /// Whether every registered task has its outcome.
    pub fn is_complete(&self) -> (r: bool)
        requires
            self.wf(),
        ensures
            r == all_recorded(self.slots()),
    {
        let mut i: usize = 0;
        while i < self.entries.len()
            invariant
                i <= self.entries.len(),
                self.slots().len() == self.entries@.len(),
                forall|j: int| 0 <= j < i ==> self.slots()[j] is Some,
            decreases self.entries.len() - i,
        {
            if self.entries[i].is_none() {
                assert(self.slots()[i as int] is None);
                return false;
            }
            i = i + 1;
        }
        true
    }

    /// Whether every registered task of phase `phase` has its outcome.
    pub fn phase_recorded(&self, phase: Phase) -> (r: bool)
        requires
            self.wf(),
        ensures
            r == phase_done(self.registry(), self.slots(), phase),
    {
        let mut i: usize = 0;
        while i < self.tasks.len()
            invariant
                i <= self.tasks.len(),
                self.wf(),
                forall|j: int|
                    0 <= j < i && task_phase(self.registry()[j]) == phase ==> self.slots()[j] is Some,
            decreases self.tasks.len() - i,
        {
            if self.tasks[i].phase() == phase && self.entries[i].is_none() {
                assert(self.slots()[i as int] is None);
                return false;
            }
            i = i + 1;
        }
        true
    }

    /// The outcome recorded for `task`, if any.
    pub fn get(&self, task: TaskId) -> (r: Option<&Outcome>)
        requires
            self.wf(),
        ensures
            r is None <==> !(exists|j: int|
                0 <= j < self.registry().len() && self.registry()[j] == task
                    && self.slots()[j] is Some),
            forall|j: int|
                0 <= j < self.registry().len() && self.registry()[j] == task ==> match r {
                    Some(o) => self.slots()[j] == Some(o@),
                    None => self.slots()[j] is None,
                },
    {
        let mut i: usize = 0;
        while i < self.tasks.len()
            invariant
                i <= self.tasks.len(),
                self.wf(),
                forall|j: int| 0 <= j < i ==> self.registry()[j] != task,
            decreases self.tasks.len() - i,
        {
            if self.tasks[i] == task {
                assert(forall|j: int|
                    0 <= j < self.registry().len() && self.registry()[j] == task ==> j == i);
                return match &self.entries[i] {
                    Some(o) => Some(o),
                    None => None,
                };
            }
            i = i + 1;
        }
        None
    }

    /// The report rows, one per registered task in registry order, whatever the
    /// order in which the outcomes were recorded.
    pub fn rows(&self) -> (r: Vec<String>)
        requires
            self.wf(),
        ensures
            r@.map_values(|s: String| s@) == report_rows(self.registry(), self.slots()),
    {
        let mut out: Vec<String> = Vec::new();
        let mut i: usize = 0;
        while i < self.tasks.len()
            invariant
                i <= self.tasks.len(),
                self.wf(),
                out@.len() == i,
                forall|j: int|
                    0 <= j < i ==> (#[trigger] out@[j])@ == report_row(
                        self.registry()[j],
                        self.slots()[j],
                    ),
            decreases self.tasks.len() - i,
        {
            let text = match &self.entries[i] {
                Some(o) => o.render(),
                None => String::new(),
            };
            let name = pad_right(self.tasks[i].name(), NAME_WIDTH);
            let result = pad_right(text.as_str(), RESULT_WIDTH);
            let row = name.concat("  ").concat(result.as_str());
            out.push(row);
            i = i + 1;
        }
        assert(out@.map_values(|s: String| s@) =~= report_rows(self.registry(), self.slots()));
        out
    }
}

} // verus!
