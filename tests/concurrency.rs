use upkeep::orchestrator::tasks_of;
use upkeep::outcome::Outcome;
use upkeep::table::ResultTable;
use upkeep::task::{next_action, Action, Event, Phase, TaskId};

/// Advances `task` by one step, answering as if every command succeeds.
fn step(task: TaskId, history: &mut Vec<Event>) -> Option<Outcome> {
    match next_action(task, history) {
        Action::Run(_) => history.push(Event::Exited(true)),
        Action::Capture(_) => history.push(Event::Output("pkg".to_string())),
        Action::ReadAge(_) => history.push(Event::Age(Some(1))),
        Action::Finish(o) => return Some(o),
    }
    None
}

#[test]
fn interleaved_tasks_fill_table() {
    let tasks = tasks_of(Phase::Parallel);
    for start in 0..tasks.len() {
        let mut table = ResultTable::new(tasks.clone());
        let mut histories: Vec<Vec<Event>> = tasks.iter().map(|_| Vec::new()).collect();
        let mut done = vec![false; tasks.len()];
        let mut finished_order: Vec<TaskId> = Vec::new();
        let mut turn = start;
        while done.iter().any(|d| !d) {
            let i = turn % tasks.len();
            if !done[i] {
                if let Some(outcome) = step(tasks[i], &mut histories[i]) {
                    table.record(tasks[i], outcome).unwrap();
                    done[i] = true;
                    finished_order.push(tasks[i]);
                }
            }
            turn += 1;
        }
        assert_eq!(finished_order.len(), tasks.len());
        assert!(table.is_complete());
        for task in tasks.iter() {
            assert!(table.get(*task).unwrap().succeeded);
        }
        let rows = table.rows();
        assert!(rows[0].starts_with("Prune"));
        assert!(rows[4].starts_with("Rust"));
    }
}
