use upkeep::orchestrator::{tasks_of, Orchestrator, Stage, StepError};
use upkeep::outcome::Outcome;
use upkeep::table::{RecordError, ResultTable};
use upkeep::task::{Phase, TaskId};
use upkeep::text::{pad_right, trim};

fn ok(t: TaskId) -> Outcome {
    Outcome::new(t.name(), true, "done")
}

#[test]
fn every_task_recorded_once_in_any_order() {
    let orders = [
        TaskId::all(),
        {
            let mut v = TaskId::all();
            v.reverse();
            v
        },
        vec![
            TaskId::Orphans,
            TaskId::Mirror,
            TaskId::Rust,
            TaskId::Packages,
            TaskId::Cache,
            TaskId::Prune,
            TaskId::Docker,
        ],
    ];
    let mut reports: Vec<Vec<String>> = Vec::new();
    for order in orders.iter() {
        let mut t = ResultTable::standard();
        assert!(!t.is_complete());
        for task in order.iter() {
            assert_eq!(t.record(*task, ok(*task)), Ok(()));
        }
        assert!(t.is_complete());
        for task in TaskId::all() {
            assert_eq!(t.get(task).unwrap().label, task.name());
        }
        reports.push(t.rows());
    }
    assert_eq!(reports[0], reports[1]);
    assert_eq!(reports[0], reports[2]);
}

#[test]
fn report_lists_tasks_in_registry_order() {
    let mut t = ResultTable::standard();
    for task in [TaskId::Rust, TaskId::Docker, TaskId::Cache, TaskId::Orphans, TaskId::Prune, TaskId::Packages, TaskId::Mirror] {
        t.record(task, Outcome::new(task.name(), task != TaskId::Docker, "x")).unwrap();
    }
    let rows = t.rows();
    let names: Vec<String> = rows.iter().map(|r| r[..15].trim_end().to_string()).collect();
    assert_eq!(names, vec!["Mirror", "Packages", "Prune", "Orphans", "Cache", "Docker", "Rust"]);
    assert_eq!(rows[0], format!("{:<15}  {:<40}", "Mirror", "✅ x"));
    assert_eq!(rows[5], format!("{:<15}  {:<40}", "Docker", "❌ x"));
}

#[test]
fn record_twice_is_refused() {
    let mut t = ResultTable::standard();
    assert_eq!(t.record(TaskId::Cache, ok(TaskId::Cache)), Ok(()));
    let second = Outcome::new("Cache", false, "again");
    assert_eq!(t.record(TaskId::Cache, second), Err(RecordError::AlreadyRecorded));
    assert!(t.get(TaskId::Cache).unwrap().succeeded);
    assert_eq!(t.get(TaskId::Cache).unwrap().message, "done");
}

#[test]
fn record_unregistered_is_refused() {
    let mut t = ResultTable::new(vec![TaskId::Prune, TaskId::Docker]);
    assert_eq!(t.record(TaskId::Rust, ok(TaskId::Rust)), Err(RecordError::NotRegistered));
    assert!(t.get(TaskId::Rust).is_none());
    t.record(TaskId::Docker, ok(TaskId::Docker)).unwrap();
    assert!(!t.is_complete());
    t.record(TaskId::Prune, ok(TaskId::Prune)).unwrap();
    assert!(t.is_complete());
    assert_eq!(t.rows().len(), 2);
}

#[test]
fn missing_outcome_renders_blank() {
    let t = ResultTable::new(vec![TaskId::Rust]);
    assert_eq!(t.rows(), vec![format!("{:<15}  {:<40}", "Rust", "")]);
    assert!(t.phase_recorded(Phase::Sequential));
    assert!(!t.phase_recorded(Phase::Parallel));
}

#[test]
fn parallel_phase_many_orders() {
    for rot in 0..5 {
        let mut o = Orchestrator::new();
        o.begin().unwrap();
        for t in tasks_of(Phase::Sequential) {
            o.record(t, ok(t)).unwrap();
        }
        o.launch_parallel().unwrap();
        let mut par = tasks_of(Phase::Parallel);
        par.rotate_left(rot);
        for t in par {
            assert_eq!(o.join(), Err(StepError::Incomplete));
            o.record(t, ok(t)).unwrap();
        }
        assert_eq!(o.join(), Ok(()));
        let rows = o.report().unwrap();
        assert_eq!(rows.len(), 7);
        assert!(rows[6].starts_with("Rust"));
        assert_eq!(o.current_stage(), Stage::Reported);
    }
}

#[test]
fn orchestrator_stage_errors() {
    let mut o = Orchestrator::new();
    assert_eq!(o.current_stage(), Stage::Init);
    assert_eq!(o.record(TaskId::Mirror, ok(TaskId::Mirror)), Err(StepError::WrongStage));
    assert_eq!(o.launch_parallel(), Err(StepError::WrongStage));
    assert_eq!(o.join(), Err(StepError::WrongStage));
    assert!(matches!(o.report(), Err(StepError::WrongStage)));
    assert_eq!(o.begin(), Ok(()));
    assert_eq!(o.begin(), Err(StepError::WrongStage));
    assert_eq!(o.record(TaskId::Docker, ok(TaskId::Docker)), Err(StepError::WrongStage));
    o.record(TaskId::Mirror, ok(TaskId::Mirror)).unwrap();
    assert_eq!(o.launch_parallel(), Err(StepError::Incomplete));
    assert_eq!(
        o.record(TaskId::Mirror, ok(TaskId::Mirror)),
        Err(StepError::Record(RecordError::AlreadyRecorded))
    );
    o.record(TaskId::Packages, Outcome::new("Packages", false, "failed")).unwrap();
    assert_eq!(o.launch_parallel(), Ok(()));
    assert_eq!(o.record(TaskId::Mirror, ok(TaskId::Mirror)), Err(StepError::WrongStage));
    assert_eq!(tasks_of(Phase::Sequential), vec![TaskId::Mirror, TaskId::Packages]);
    assert_eq!(TaskId::Orphans.phase(), Phase::Parallel);
}

#[test]
fn text_helpers() {
    assert_eq!(trim("  a b \t\n"), "a b");
    assert_eq!(trim(" \n "), "");
    assert_eq!(pad_right("ab", 5), "ab   ");
    assert_eq!(pad_right("abcdef", 3), "abcdef");
    assert_eq!(pad_right("✅", 3), "✅  ");
    let o = Outcome::new("Rust", false, "no");
    assert_eq!(o.render(), "❌ no");
}
