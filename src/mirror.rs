use vstd::prelude::*;
use crate::command::{plain_command, strs_view, Command, CommandView};

verus! {

/// Where the mirror list lives.
pub const MIRRORLIST_PATH: &'static str = "/etc/pacman.d/mirrorlist";

/// Age, in seconds, beyond which the mirror list counts as stale (one week).
pub const FRESHNESS_WINDOW_SECS: u64 = 604800;

/// The mirror list is fresh when its modification age is known and below the window.
pub open spec fn is_fresh(age_secs: Option<u64>) -> bool {
    match age_secs {
        Some(a) => a < FRESHNESS_WINDOW_SECS,
        None => false,
    }
}

/// Decides whether the mirror list is recent enough to skip an update.
/// `age_secs` is the time since the file was last modified; `None` stands for
/// metadata that could not be read or a modification time in the future.
pub fn is_mirrorlist_up_to_date(age_secs: Option<u64>) -> (r: bool)
    ensures
        r == is_fresh(age_secs),
{
    match age_secs {
        Some(a) => a < FRESHNESS_WINDOW_SECS,
        None => false,
    }
}

/// The ranking run that rewrites the mirror list at `path`: the ten most recently
/// synchronised HTTPS mirrors, sorted by score, with a three-second connection timeout.
pub open spec fn mirror_update_command(path: Seq<char>) -> CommandView {
    plain_command(
        "sudo"@,
        seq![
            "reflector"@,
            "--verbose"@,
            "--latest"@,
            "10"@,
            "--sort"@,
            "score"@,
            "--connection-timeout"@,
            "3"@,
            "--protocol"@,
            "https"@,
            "--save"@,
            path,
        ],
    )
}

/// The command that refreshes the mirror list stored at `path`.
pub fn update_mirrorlist(path: &str) -> (r: Command)
    ensures
        r@ == mirror_update_command(path@),
{
    let args = vec![
        "reflector",
        "--verbose",
        "--latest",
        "10",
        "--sort",
        "score",
        "--connection-timeout",
        "3",
        "--protocol",
        "https",
        "--save",
        path,
    ];
    let r = Command::new("sudo", args);
    assert(strs_view(args@) =~= mirror_update_command(path@).args);
    r
}

} // verus!
