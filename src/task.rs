use vstd::prelude::*;
use crate::command::{plain_command, strs_view, Command, CommandView};
use crate::mirror::{
    is_fresh, is_mirrorlist_up_to_date, mirror_update_command, update_mirrorlist, MIRRORLIST_PATH,
};
use crate::outcome::{outcome_of, Outcome, OutcomeView};
use crate::pkg::{
    get_orphaned_packages, orphan_query, orphan_query_command, orphan_removal,
    orphan_removal_command,
};
use crate::text::{contains_text, trimmed};

verus! {

/// The upkeep operations, in the order in which the report lists them.
#[derive(Clone, Copy, PartialEq, Eq, Structural, Debug)]
pub enum TaskId {
    Mirror,
    Packages,
    Prune,
    Orphans,
    Cache,
    Docker,
    Rust,
}

/// When a task runs: before everything else, one at a time, or alongside the others.
#[derive(Clone, Copy, PartialEq, Eq, Structural, Debug)]
pub enum Phase {
    Sequential,
    Parallel,
}

/// What the outside world reports back after an action.
pub enum Event {
    /// A command ran; whether it exited successfully.
    Exited(bool),
    /// A command ran and printed this on its standard output.
    Output(String),
    /// The age of a file in seconds, if it could be learned.
    Age(Option<u64>),
}

/// Mathematical model of an `Event`.
pub enum EventView {
    Exited(bool),
    Output(Seq<char>),
    Age(Option<u64>),
}

impl View for Event {
    type V = EventView;

    open spec fn view(&self) -> EventView {
        match self {
            Event::Exited(b) => EventView::Exited(*b),
            Event::Output(s) => EventView::Output(s@),
            Event::Age(a) => EventView::Age(*a),
        }
    }
}

/// What a task asks for next.
pub enum Action {
    /// Learn how long ago the file at this path was modified.
    ReadAge(String),
    /// Run the command and report whether it succeeded.
    Run(Command),
    /// Run the command and report its standard output.
    Capture(Command),
    /// The task is done, with this outcome.
    Finish(Outcome),
}

/// Mathematical model of an `Action`.
pub enum ActionView {
    ReadAge(Seq<char>),
    Run(CommandView),
    Capture(CommandView),
    Finish(OutcomeView),
}

impl View for Action {
    type V = ActionView;

    open spec fn view(&self) -> ActionView {
        match self {
            Action::ReadAge(p) => ActionView::ReadAge(p@),
            Action::Run(c) => ActionView::Run(c@),
            Action::Capture(c) => ActionView::Capture(c@),
            Action::Finish(o) => ActionView::Finish(o@),
        }
    }
}

/// The models of a sequence of events.
pub open spec fn events_view(h: Seq<Event>) -> Seq<EventView> {
    h.map_values(|e: Event| e@)
}

/// The models of a sequence of commands.
pub open spec fn commands_view(v: Seq<Command>) -> Seq<CommandView> {
    v.map_values(|c: Command| c@)
}

/// An event that tells of a command that exited successfully.
pub open spec fn succeeded(e: EventView) -> bool {
    e == EventView::Exited(true)
}

/// What an event says was printed; nothing unless it is an output.
pub open spec fn output_of(e: EventView) -> Seq<char> {
    match e {
        EventView::Output(s) => s,
        _ => Seq::empty(),
    }
}

/// What an event says of a file's age; unknown unless it is an age.
pub open spec fn age_of(e: EventView) -> Option<u64> {
    match e {
        EventView::Age(a) => a,
        _ => None,
    }
}

/// Every one of the first `n` events tells of a success.
pub open spec fn all_succeeded(h: Seq<EventView>, n: int) -> bool {
    forall|i: int| 0 <= i < n ==> #[trigger] succeeded(h[i])
}

/// The row label of a task.
pub open spec fn task_name(t: TaskId) -> Seq<char> {
    match t {
        TaskId::Mirror => "Mirror"@,
        TaskId::Packages => "Packages"@,
        TaskId::Prune => "Prune"@,
        TaskId::Orphans => "Orphans"@,
        TaskId::Cache => "Cache"@,
        TaskId::Docker => "Docker"@,
        TaskId::Rust => "Rust"@,
    }
}

/// The phase a task runs in.
pub open spec fn task_phase(t: TaskId) -> Phase {
    match t {
        TaskId::Mirror | TaskId::Packages => Phase::Sequential,
        _ => Phase::Parallel,
    }
}

/// The tasks that are a fixed list of commands, all of which must succeed.
pub open spec fn is_sequence_task(t: TaskId) -> bool {
    match t {
        TaskId::Prune | TaskId::Cache | TaskId::Docker | TaskId::Rust => true,
        _ => false,
    }
}

/// What a sequence task does, in words.
pub open spec fn task_description(t: TaskId) -> Seq<char> {
    match t {
        TaskId::Prune => "pruning cache..."@,
        TaskId::Cache => "cleaning cache directories..."@,
        TaskId::Docker => "cleaning docker objects..."@,
        TaskId::Rust => "updating rust..."@,
        _ => Seq::empty(),
    }
}

/// The commands of a sequence task, in the order they run.
pub open spec fn task_commands(t: TaskId) -> Seq<CommandView> {
    match t {
        TaskId::Prune => seq![plain_command("sudo"@, seq!["paccache"@, "-rk1"@])],
        TaskId::Cache => seq![
            plain_command("sh"@, seq!["-c"@, "rm -rf ~/.cache/*"@]),
            plain_command("sudo"@, seq!["sh"@, "-c"@, "rm -rf /tmp/*"@]),
        ],
        TaskId::Docker => seq![plain_command("docker"@, seq!["system"@, "prune"@, "-af"@])],
        TaskId::Rust => seq![plain_command("rustup"@, seq!["update"@])],
        _ => Seq::empty(),
    }
}

/// The package upgrade.
pub open spec fn package_update_command() -> CommandView {
    plain_command("yay"@, seq!["--noconfirm"@])
}

/// The refresh of the package signing keys.
pub open spec fn key_refresh_command() -> CommandView {
    plain_command("sudo"@, seq!["pacman-key"@, "--refresh-keys"@])
}

/// The end of task `t`, with the given success and message.
pub open spec fn finish(t: TaskId, ok: bool, message: Seq<char>) -> ActionView {
    ActionView::Finish(outcome_of(task_name(t), ok, message))
}

/// The orphan list that the first event of `h` captured.
pub open spec fn captured_list(h: Seq<EventView>) -> Seq<char> {
    trimmed(output_of(h[0]))
}

/// What the mirror task asks for after the events `h`.
pub open spec fn mirror_step(h: Seq<EventView>) -> ActionView {
    let t = TaskId::Mirror;
    if h.len() == 0 {
        ActionView::ReadAge(MIRRORLIST_PATH@)
    } else if is_fresh(age_of(h[0])) {
        finish(t, true, "mirror list is up-to-date"@)
    } else if h.len() == 1 {
        ActionView::Run(mirror_update_command(MIRRORLIST_PATH@))
    } else if succeeded(h[1]) {
        finish(t, true, "mirror list updated"@)
    } else {
        finish(t, false, "mirror list update failed"@)
    }
}

/// What the package task asks for after the events `h`: an upgrade; if it fails,
/// a key refresh and a second upgrade.
pub open spec fn packages_step(h: Seq<EventView>) -> ActionView {
    let t = TaskId::Packages;
    if h.len() == 0 {
        ActionView::Run(package_update_command())
    } else if succeeded(h[0]) {
        finish(t, true, "packages updated"@)
    } else if h.len() == 1 {
        ActionView::Run(key_refresh_command())
    } else if !succeeded(h[1]) {
        finish(t, false, "package update and key refresh failed"@)
    } else if h.len() == 2 {
        ActionView::Run(package_update_command())
    } else if succeeded(h[2]) {
        finish(t, true, "packages updated after key refresh"@)
    } else {
        finish(t, false, "package update and key refresh failed"@)
    }
}

/// What the orphan task asks for after the events `h`: the list, then, unless it
/// is empty, the removal of what it names.
pub open spec fn orphans_step(h: Seq<EventView>) -> ActionView {
    let t = TaskId::Orphans;
    if h.len() == 0 {
        ActionView::Capture(orphan_query_command())
    } else if captured_list(h).len() == 0 {
        finish(t, true, "no orphaned packages found"@)
    } else if h.len() == 1 {
        ActionView::Run(orphan_removal_command(captured_list(h)))
    } else if succeeded(h[1]) {
        finish(t, true, "orphaned packages removed"@)
    } else {
        finish(t, false, "orphaned package removal failed: "@ + captured_list(h))
    }
}

/// What a sequence task asks for after the events `h`: its next command while all
/// before it succeeded, a failure at the first that did not.
pub open spec fn sequence_step(t: TaskId, h: Seq<EventView>) -> ActionView {
    let cmds = task_commands(t);
    let seen = if h.len() < cmds.len() {
        h.len() as int
    } else {
        cmds.len() as int
    };
    if !all_succeeded(h, seen) {
        finish(t, false, task_description(t) + " failed"@)
    } else if h.len() < cmds.len() {
        ActionView::Run(cmds[h.len() as int])
    } else {
        finish(t, true, task_description(t) + " succeeded"@)
    }
}

/// What task `t` asks for after the events `h`, which answer its earlier actions in order.
pub open spec fn next_step(t: TaskId, h: Seq<EventView>) -> ActionView {
    match t {
        TaskId::Mirror => mirror_step(h),
        TaskId::Packages => packages_step(h),
        TaskId::Orphans => orphans_step(h),
        _ => sequence_step(t, h),
    }
}

/// The tasks in report order.
pub open spec fn standard_registry() -> Seq<TaskId> {
    seq![
        TaskId::Mirror,
        TaskId::Packages,
        TaskId::Prune,
        TaskId::Orphans,
        TaskId::Cache,
        TaskId::Docker,
        TaskId::Rust,
    ]
}

impl TaskId {
    /// The row label of the task.
    pub fn name(&self) -> (r: &'static str)
        ensures
            r@ == task_name(*self),
    {
        match self {
            TaskId::Mirror => "Mirror",
            TaskId::Packages => "Packages",
            TaskId::Prune => "Prune",
            TaskId::Orphans => "Orphans",
            TaskId::Cache => "Cache",
            TaskId::Docker => "Docker",
            TaskId::Rust => "Rust",
        }
    }

    /// The phase the task runs in.
    pub fn phase(&self) -> (r: Phase)
        ensures
            r == task_phase(*self),
    {
        match self {
            TaskId::Mirror | TaskId::Packages => Phase::Sequential,
            _ => Phase::Parallel,
        }
    }

    /// Every task, in report order.
    pub fn all() -> (r: Vec<TaskId>)
        ensures
            r@ == standard_registry(),
    {
        let r = vec![
            TaskId::Mirror,
            TaskId::Packages,
            TaskId::Prune,
            TaskId::Orphans,
            TaskId::Cache,
            TaskId::Docker,
            TaskId::Rust,
        ];
        assert(r@ =~= standard_registry());
        r
    }
}

fn event_succeeded(e: &Event) -> (r: bool)
    ensures
        r == succeeded(e@),
{
    match e {
        Event::Exited(b) => *b,
        _ => false,
    }
}

fn event_output(e: &Event) -> (r: String)
    ensures
        r@ == output_of(e@),
{
    match e {
        Event::Output(s) => s.clone(),
        _ => String::new(),
    }
}

fn event_age(e: &Event) -> (r: Option<u64>)
    ensures
        r == age_of(e@),
{
    match e {
        Event::Age(a) => *a,
        _ => None,
    }
}

fn finish_with(t: TaskId, ok: bool, message: &str) -> (r: Action)
    ensures
        r@ == finish(t, ok, message@),
{
    Action::Finish(Outcome::new(t.name(), ok, message))
}

/// The package upgrade command.
pub fn package_update() -> (r: Command)
    ensures
        r@ == package_update_command(),
{
    let args = vec!["--noconfirm"];
    let r = Command::new("yay", args);
    assert(strs_view(args@) =~= package_update_command().args);
    r
}

/// The signing-key refresh command.
pub fn key_refresh() -> (r: Command)
    ensures
        r@ == key_refresh_command(),
{
    let args = vec!["pacman-key", "--refresh-keys"];
    let r = Command::new("sudo", args);
    assert(strs_view(args@) =~= key_refresh_command().args);
    r
}

/// The commands of a sequence task, in the order they run; none for another task.
pub fn sequence_commands(t: TaskId) -> (r: Vec<Command>)
    ensures
        commands_view(r@) == task_commands(t),
{
    let r = match t {
        TaskId::Prune => {
            let a = vec!["paccache", "-rk1"];
            assert(strs_view(a@) =~= seq!["paccache"@, "-rk1"@]);
            vec![Command::new("sudo", a)]
        },
        TaskId::Cache => {
            let a = vec!["-c", "rm -rf ~/.cache/*"];
            assert(strs_view(a@) =~= seq!["-c"@, "rm -rf ~/.cache/*"@]);
            let b = vec!["sh", "-c", "rm -rf /tmp/*"];
            assert(strs_view(b@) =~= seq!["sh"@, "-c"@, "rm -rf /tmp/*"@]);
            vec![Command::new("sh", a), Command::new("sudo", b)]
        },
        TaskId::Docker => {
            let a = vec!["system", "prune", "-af"];
            assert(strs_view(a@) =~= seq!["system"@, "prune"@, "-af"@]);
            vec![Command::new("docker", a)]
        },
        TaskId::Rust => {
            let a = vec!["update"];
            assert(strs_view(a@) =~= seq!["update"@]);
            vec![Command::new("rustup", a)]
        },
        _ => Vec::new(),
    };
    assert(commands_view(r@) =~= task_commands(t));
    r
}

fn description(t: TaskId) -> (r: &'static str)
    ensures
        r@ == task_description(t),
{
    match t {
        TaskId::Prune => "pruning cache...",
        TaskId::Cache => "cleaning cache directories...",
        TaskId::Docker => "cleaning docker objects...",
        TaskId::Rust => "updating rust...",
        _ => {
            proof {
                reveal_strlit("");
            }
            ""
        },
    }
}

fn mirror_next(h: &Vec<Event>) -> (r: Action)
    ensures
        r@ == mirror_step(events_view(h@)),
{
    let t = TaskId::Mirror;
    if h.len() == 0 {
        Action::ReadAge(MIRRORLIST_PATH.to_owned())
    } else if is_mirrorlist_up_to_date(event_age(&h[0])) {
        finish_with(t, true, "mirror list is up-to-date")
    } else if h.len() == 1 {
        Action::Run(update_mirrorlist(MIRRORLIST_PATH))
    } else if event_succeeded(&h[1]) {
        finish_with(t, true, "mirror list updated")
    } else {
        finish_with(t, false, "mirror list update failed")
    }
}

fn packages_next(h: &Vec<Event>) -> (r: Action)
    ensures
        r@ == packages_step(events_view(h@)),
{
    let t = TaskId::Packages;
    if h.len() == 0 {
        Action::Run(package_update())
    } else if event_succeeded(&h[0]) {
        finish_with(t, true, "packages updated")
    } else if h.len() == 1 {
        Action::Run(key_refresh())
    } else if !event_succeeded(&h[1]) {
        finish_with(t, false, "package update and key refresh failed")
    } else if h.len() == 2 {
        Action::Run(package_update())
    } else if event_succeeded(&h[2]) {
        finish_with(t, true, "packages updated after key refresh")
    } else {
        finish_with(t, false, "package update and key refresh failed")
    }
}

fn orphans_next(h: &Vec<Event>) -> (r: Action)
    ensures
        r@ == orphans_step(events_view(h@)),
{
    let t = TaskId::Orphans;
    if h.len() == 0 {
        return Action::Capture(orphan_query());
    }
    let raw = event_output(&h[0]);
    let list = get_orphaned_packages(raw.as_str());
    if list.unicode_len() == 0 {
        finish_with(t, true, "no orphaned packages found")
    } else if h.len() == 1 {
        Action::Run(orphan_removal(list))
    } else if event_succeeded(&h[1]) {
        finish_with(t, true, "orphaned packages removed")
    } else {
        let message = "orphaned package removal failed: ".to_owned().concat(list.as_str());
        Action::Finish(Outcome::new(t.name(), false, message.as_str()))
    }
}

fn sequence_next(t: TaskId, h: &Vec<Event>) -> (r: Action)
    ensures
        r@ == sequence_step(t, events_view(h@)),
{
    let cmds = sequence_commands(t);
    let seen = if h.len() < cmds.len() {
        h.len()
    } else {
        cmds.len()
    };
    let ghost hv = events_view(h@);
    let mut i: usize = 0;
    while i < seen
        invariant
            seen <= h.len(),
            seen <= cmds.len(),
            seen == h.len() || seen == cmds.len(),
            commands_view(cmds@) == task_commands(t),
            hv == events_view(h@),
            i <= seen,
            all_succeeded(hv, i as int),
        decreases seen - i,
    {
        if !event_succeeded(&h[i]) {
            assert(!all_succeeded(hv, seen as int)) by {
                assert(!succeeded(hv[i as int]));
            }
            let failed = description(t).to_owned().concat(" failed");
            return Action::Finish(Outcome::new(t.name(), false, failed.as_str()));
        }
        i = i + 1;
    }
    if h.len() < cmds.len() {
        let mut cmds = cmds;
        let c = cmds.remove(h.len());
        Action::Run(c)
    } else {
        let done = description(t).to_owned().concat(" succeeded");
        Action::Finish(Outcome::new(t.name(), true, done.as_str()))
    }
}

/// The next step of task `task`, given the events that answered its earlier
/// actions, oldest first: another action, or its outcome.
pub fn next_action(task: TaskId, history: &Vec<Event>) -> (r: Action)
    ensures
        r@ == next_step(task, events_view(history@)),
{
    match task {
        TaskId::Mirror => mirror_next(history),
        TaskId::Packages => packages_next(history),
        TaskId::Orphans => orphans_next(history),
        _ => sequence_next(task, history),
    }
}

/// The most events a task can take before it finishes.
pub open spec fn max_steps(t: TaskId) -> nat {
    match t {
        TaskId::Mirror => 2,
        TaskId::Packages => 3,
        TaskId::Orphans => 2,
        _ => task_commands(t).len(),
    }
}

/// Every task finishes after at most `max_steps` events, whatever they say, and
/// its outcome carries the task's label and a message that is never empty.
pub proof fn lemma_task_always_finishes(t: TaskId, h: Seq<EventView>)
    ensures
        h.len() >= max_steps(t) ==> next_step(t, h) is Finish,
        next_step(t, h) matches ActionView::Finish(o) ==> o.label == task_name(t)
            && o.message.len() > 0,
{
    reveal_strlit("mirror list is up-to-date");
    reveal_strlit("mirror list updated");
    reveal_strlit("mirror list update failed");
    reveal_strlit("packages updated");
    reveal_strlit("package update and key refresh failed");
    reveal_strlit("packages updated after key refresh");
    reveal_strlit("no orphaned packages found");
    reveal_strlit("orphaned packages removed");
    reveal_strlit("orphaned package removal failed: ");
    reveal_strlit(" failed");
    reveal_strlit(" succeeded");
}

/// An empty orphan list ends the orphan task at once, successfully, and no
/// removal is run.
pub proof fn lemma_no_orphans_no_removal(h: Seq<EventView>)
    requires
        h.len() >= 1,
        trimmed(output_of(h[0])).len() == 0,
    ensures
        next_step(TaskId::Orphans, h) == finish(TaskId::Orphans, true, "no orphaned packages found"@),
        forall|k: int|
            1 <= k <= h.len() ==> next_step(TaskId::Orphans, h.take(k)) == finish(
                TaskId::Orphans,
                true,
                "no orphaned packages found"@,
            ),
{
    assert forall|k: int| 1 <= k <= h.len() implies next_step(TaskId::Orphans, h.take(k)) == finish(
        TaskId::Orphans,
        true,
        "no orphaned packages found"@,
    ) by {
        assert(h.take(k)[0] == h[0]);
    }
}

/// A failed removal of a non-empty orphan list is a failure whose message holds
/// the list word for word.
pub proof fn lemma_failed_removal_names_orphans(h: Seq<EventView>)
    requires
        h.len() >= 2,
        trimmed(output_of(h[0])).len() > 0,
        !succeeded(h[1]),
    ensures
        next_step(TaskId::Orphans, h) matches ActionView::Finish(o) && !o.succeeded && o.label
            == task_name(TaskId::Orphans) && contains_text(o.message, trimmed(output_of(h[0]))),
{
    let list = trimmed(output_of(h[0]));
    let m = "orphaned package removal failed: "@ + list;
    let i = "orphaned package removal failed: "@.len() as int;
    assert(m.subrange(i, i + list.len()) =~= list);
}

/// A mirror list younger than the window is left alone; an older one, or one
/// whose age is unknown, is refreshed.
pub proof fn lemma_mirror_refresh_when_stale(h: Seq<EventView>)
    requires
        h.len() == 1,
    ensures
        is_fresh(age_of(h[0])) ==> next_step(TaskId::Mirror, h) == finish(
            TaskId::Mirror,
            true,
            "mirror list is up-to-date"@,
        ),
        !is_fresh(age_of(h[0])) ==> next_step(TaskId::Mirror, h) == ActionView::Run(
            mirror_update_command(MIRRORLIST_PATH@),
        ),
        h[0] == EventView::Age(Some(691200)) ==> next_step(TaskId::Mirror, h) == ActionView::Run(
            mirror_update_command(MIRRORLIST_PATH@),
        ),
        h[0] == EventView::Age(Some(3600)) ==> next_step(TaskId::Mirror, h) is Finish,
{
}

/// A sequence task runs its commands one after another, each only after all
/// before it succeeded, and succeeds once every one has.
pub proof fn lemma_sequence_runs_in_order(t: TaskId, h: Seq<EventView>)
    requires
        is_sequence_task(t),
        all_succeeded(h, h.len() as int),
    ensures
        h.len() < task_commands(t).len() ==> next_step(t, h) == ActionView::Run(
            task_commands(t)[h.len() as int],
        ),
        h.len() >= task_commands(t).len() ==> next_step(t, h) == finish(
            t,
            true,
            task_description(t) + " succeeded"@,
        ),
{
}

/// The package task retries the upgrade once, after a key refresh, only when
/// the first upgrade failed; it never runs more than two upgrades.
pub proof fn lemma_packages_retry_once(h: Seq<EventView>)
    ensures
        h.len() == 1 && !succeeded(h[0]) ==> next_step(TaskId::Packages, h) == ActionView::Run(
            key_refresh_command(),
        ),
        h.len() == 2 && !succeeded(h[0]) && succeeded(h[1]) ==> next_step(TaskId::Packages, h)
            == ActionView::Run(package_update_command()),
        h.len() >= 3 && !succeeded(h[0]) && succeeded(h[1]) && succeeded(h[2]) ==> next_step(
            TaskId::Packages,
            h,
        ) == finish(TaskId::Packages, true, "packages updated after key refresh"@),
        h.len() >= 3 ==> next_step(TaskId::Packages, h) is Finish,
{
}

} // verus!
