use upkeep::command::Command;
use upkeep::mirror::{is_mirrorlist_up_to_date, update_mirrorlist, FRESHNESS_WINDOW_SECS, MIRRORLIST_PATH};
use upkeep::outcome::Outcome;
use upkeep::pkg::{get_orphaned_packages, orphan_query, orphan_removal};
use upkeep::task::{next_action, sequence_commands, Action, Event, TaskId};

fn run_of(a: Action) -> Command {
    match a {
        Action::Run(c) => c,
        _ => panic!("expected a command to run"),
    }
}

fn outcome_of(a: Action) -> Outcome {
    match a {
        Action::Finish(o) => o,
        _ => panic!("expected the task to finish"),
    }
}

fn args_of(c: &Command) -> Vec<&str> {
    c.args.iter().map(|a| a.as_str()).collect()
}

#[test]
fn orphans_empty_list_skips_removal() {
    let first = next_action(TaskId::Orphans, &vec![]);
    match first {
        Action::Capture(c) => {
            assert_eq!(c.program, "sudo");
            assert_eq!(args_of(&c), vec!["pacman", "-Qtdq"]);
        }
        _ => panic!("the orphan task starts by listing the orphans"),
    }
    let o = outcome_of(next_action(TaskId::Orphans, &vec![Event::Output(String::new())]));
    assert!(o.succeeded);
    assert_eq!(o.message, "no orphaned packages found");
    assert_eq!(o.label, "Orphans");
    let o = outcome_of(next_action(TaskId::Orphans, &vec![Event::Output(" \n\t\n".to_string())]));
    assert!(o.succeeded);
    assert_eq!(o.message, "no orphaned packages found");
}

#[test]
fn orphans_failed_removal_reports_list() {
    let raw = "libfoo\nlibbar\n".to_string();
    let h = vec![Event::Output(raw.clone())];
    let c = run_of(next_action(TaskId::Orphans, &h));
    assert_eq!(c.program, "xargs");
    assert_eq!(args_of(&c), vec!["sudo", "pacman", "-Rns", "--noconfirm"]);
    assert_eq!(c.input.as_deref(), Some("libfoo\nlibbar"));
    let h = vec![Event::Output(raw), Event::Exited(false)];
    let o = outcome_of(next_action(TaskId::Orphans, &h));
    assert!(!o.succeeded);
    assert!(o.message.contains("libfoo\nlibbar"));
    assert_eq!(o.message, "orphaned package removal failed: libfoo\nlibbar");
}

#[test]
fn orphans_successful_removal() {
    let h = vec![Event::Output("libfoo".to_string()), Event::Exited(true)];
    let o = outcome_of(next_action(TaskId::Orphans, &h));
    assert!(o.succeeded);
    assert_eq!(o.message, "orphaned packages removed");
}

#[test]
fn mirror_stale_list_is_updated() {
    let first = next_action(TaskId::Mirror, &vec![]);
    match first {
        Action::ReadAge(p) => assert_eq!(p, MIRRORLIST_PATH),
        _ => panic!("the mirror task starts by reading the list's age"),
    }
    let eight_days: u64 = 8 * 24 * 3600;
    let c = run_of(next_action(TaskId::Mirror, &vec![Event::Age(Some(eight_days))]));
    assert_eq!(c.program, "sudo");
    assert_eq!(c.args[0], "reflector");
    assert_eq!(c.args.last().unwrap(), MIRRORLIST_PATH);
    let o = outcome_of(next_action(
        TaskId::Mirror,
        &vec![Event::Age(Some(eight_days)), Event::Exited(true)],
    ));
    assert!(o.succeeded);
    assert_eq!(o.message, "mirror list updated");
    let o = outcome_of(next_action(
        TaskId::Mirror,
        &vec![Event::Age(Some(eight_days)), Event::Exited(false)],
    ));
    assert!(!o.succeeded);
    assert_eq!(o.message, "mirror list update failed");
}

#[test]
fn mirror_fresh_list_is_kept() {
    let o = outcome_of(next_action(TaskId::Mirror, &vec![Event::Age(Some(3600))]));
    assert!(o.succeeded);
    assert_eq!(o.message, "mirror list is up-to-date");
    assert_eq!(o.label, "Mirror");
}

#[test]
fn mirror_unknown_age_is_updated() {
    let c = run_of(next_action(TaskId::Mirror, &vec![Event::Age(None)]));
    assert_eq!(c.args[0], "reflector");
}

#[test]
fn freshness_window_edges() {
    assert_eq!(FRESHNESS_WINDOW_SECS, 604800);
    assert!(is_mirrorlist_up_to_date(Some(0)));
    assert!(is_mirrorlist_up_to_date(Some(604799)));
    assert!(!is_mirrorlist_up_to_date(Some(604800)));
    assert!(!is_mirrorlist_up_to_date(Some(u64::MAX)));
    assert!(!is_mirrorlist_up_to_date(None));
}

#[test]
fn mirror_update_command_arguments() {
    let c = update_mirrorlist("/tmp/mirrors");
    assert_eq!(c.program, "sudo");
    assert_eq!(
        args_of(&c),
        vec![
            "reflector",
            "--verbose",
            "--latest",
            "10",
            "--sort",
            "score",
            "--connection-timeout",
            "3",
            "--protocol",
            "https",
            "--save",
            "/tmp/mirrors",
        ]
    );
    assert!(c.input.is_none());
}

#[test]
fn packages_recovered_after_key_refresh() {
    let mut h: Vec<Event> = Vec::new();
    let mut ran: Vec<String> = Vec::new();
    let answers = [false, true, true];
    let mut k = 0;
    let outcome = loop {
        match next_action(TaskId::Packages, &h) {
            Action::Run(c) => {
                ran.push(format!("{} {}", c.program, c.args.join(" ")));
                h.push(Event::Exited(answers[k]));
                k += 1;
            }
            Action::Finish(o) => break o,
            _ => panic!("the package task only runs commands"),
        }
    };
    assert_eq!(
        ran,
        vec![
            "yay --noconfirm".to_string(),
            "sudo pacman-key --refresh-keys".to_string(),
            "yay --noconfirm".to_string(),
        ]
    );
    assert!(outcome.succeeded);
    assert_eq!(outcome.message, "packages updated after key refresh");
}

#[test]
fn packages_updated_first_time() {
    let o = outcome_of(next_action(TaskId::Packages, &vec![Event::Exited(true)]));
    assert!(o.succeeded);
    assert_eq!(o.message, "packages updated");
}

#[test]
fn packages_refresh_fails() {
    let o = outcome_of(next_action(
        TaskId::Packages,
        &vec![Event::Exited(false), Event::Exited(false)],
    ));
    assert!(!o.succeeded);
    assert_eq!(o.message, "package update and key refresh failed");
    let o = outcome_of(next_action(
        TaskId::Packages,
        &vec![Event::Exited(false), Event::Exited(true), Event::Exited(false)],
    ));
    assert!(!o.succeeded);
    assert_eq!(o.message, "package update and key refresh failed");
}

#[test]
fn cache_task_runs_both_commands() {
    let cmds = sequence_commands(TaskId::Cache);
    assert_eq!(cmds.len(), 2);
    let c = run_of(next_action(TaskId::Cache, &vec![]));
    assert_eq!(c.program, cmds[0].program);
    let c = run_of(next_action(TaskId::Cache, &vec![Event::Exited(true)]));
    assert_eq!(c.program, "sudo");
    assert_eq!(args_of(&c), vec!["sh", "-c", "rm -rf /tmp/*"]);
    let o = outcome_of(next_action(
        TaskId::Cache,
        &vec![Event::Exited(true), Event::Exited(true)],
    ));
    assert!(o.succeeded);
    assert_eq!(o.message, "cleaning cache directories... succeeded");
    assert_eq!(o.label, "Cache");
}

#[test]
fn cache_task_stops_at_first_failure() {
    let o = outcome_of(next_action(TaskId::Cache, &vec![Event::Exited(false)]));
    assert!(!o.succeeded);
    assert_eq!(o.message, "cleaning cache directories... failed");
}

#[test]
fn single_command_tasks() {
    let c = run_of(next_action(TaskId::Docker, &vec![]));
    assert_eq!(c.program, "docker");
    assert_eq!(args_of(&c), vec!["system", "prune", "-af"]);
    let c = run_of(next_action(TaskId::Rust, &vec![]));
    assert_eq!(c.program, "rustup");
    let c = run_of(next_action(TaskId::Prune, &vec![]));
    assert_eq!(args_of(&c), vec!["paccache", "-rk1"]);
    let o = outcome_of(next_action(TaskId::Prune, &vec![Event::Exited(false)]));
    assert_eq!(o.message, "pruning cache... failed");
    let o = outcome_of(next_action(TaskId::Rust, &vec![Event::Exited(true)]));
    assert_eq!(o.message, "updating rust... succeeded");
    assert!(sequence_commands(TaskId::Mirror).is_empty());
}

#[test]
fn wrong_event_kind_counts_as_failure() {
    let o = outcome_of(next_action(TaskId::Docker, &vec![Event::Output("ok".to_string())]));
    assert!(!o.succeeded);
}

#[test]
fn orphan_output_is_trimmed() {
    assert_eq!(get_orphaned_packages("  a\nb \n"), "a\nb");
    assert_eq!(get_orphaned_packages(""), "");
    assert_eq!(get_orphaned_packages("\u{3000}x\u{a0}"), "x");
    let q = orphan_query();
    assert_eq!(args_of(&q), vec!["pacman", "-Qtdq"]);
    let r = orphan_removal("a".to_string());
    assert_eq!(r.input.as_deref(), Some("a"));
}
