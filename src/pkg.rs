use vstd::prelude::*;
use crate::command::{plain_command, strs_view, Command, CommandView};
use crate::text::{trim, trimmed};

verus! {

/// The query that lists orphaned packages, one per line.
pub open spec fn orphan_query_command() -> CommandView {
    plain_command("sudo"@, seq!["pacman"@, "-Qtdq"@])
}

/// The removal of the packages named on its standard input.
pub open spec fn orphan_removal_command(list: Seq<char>) -> CommandView {
    CommandView {
        program: "xargs"@,
        args: seq!["sudo"@, "pacman"@, "-Rns"@, "--noconfirm"@],
        input: Some(list),
    }
}

/// The command whose output lists the orphaned packages.
pub fn orphan_query() -> (r: Command)
    ensures
        r@ == orphan_query_command(),
{
    let args = vec!["pacman", "-Qtdq"];
    let r = Command::new("sudo", args);
    assert(strs_view(args@) =~= orphan_query_command().args);
    r
}

/// The orphaned packages named in the query's output: that output without
/// surrounding whitespace.
pub fn get_orphaned_packages(output: &str) -> (r: String)
    ensures
        r@ == trimmed(output@),
{
    trim(output)
}

/// The command that removes the packages listed in `list`.
pub fn orphan_removal(list: String) -> (r: Command)
    ensures
        r@ == orphan_removal_command(list@),
{
    let args = vec!["sudo", "pacman", "-Rns", "--noconfirm"];
    let r = Command::new("xargs", args);
    assert(strs_view(args@) =~= orphan_removal_command(list@).args);
    r.with_input(list)
}

} // verus!
