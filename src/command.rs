use vstd::prelude::*;

verus! {

/// One invocation of an external program, with the text fed to its standard input, if any.
pub struct Command {
    pub program: String,
    pub args: Vec<String>,
    pub input: Option<String>,
}

/// Mathematical model of a `Command`.
pub struct CommandView {
    pub program: Seq<char>,
    pub args: Seq<Seq<char>>,
    pub input: Option<Seq<char>>,
}

/// The characters of each string of `v`.
pub open spec fn strs_view(v: Seq<&str>) -> Seq<Seq<char>> {
    v.map_values(|s: &str| s@)
}

/// The characters of each string of `v`.
pub open spec fn strings_view(v: Seq<String>) -> Seq<Seq<char>> {
    v.map_values(|s: String| s@)
}

impl View for Command {
    type V = CommandView;

    open spec fn view(&self) -> CommandView {
        CommandView {
            program: self.program@,
            args: strings_view(self.args@),
            input: match self.input {
                Some(s) => Some(s@),
                None => None,
            },
        }
    }
}

/// The model of a command with no standard input.
pub open spec fn plain_command(program: Seq<char>, args: Seq<Seq<char>>) -> CommandView {
    CommandView { program, args, input: None }
}

impl Command {
    /// A command that runs `program` with `args` and no standard input.
    pub fn new(program: &str, args: Vec<&str>) -> (r: Command)
        ensures
            r@ == plain_command(program@, strs_view(args@)),
    {
        let mut out: Vec<String> = Vec::new();
        let mut i: usize = 0;
        while i < args.len()
            invariant
                i <= args.len(),
                strings_view(out@) =~= strs_view(args@).take(i as int),
            decreases args.len() - i,
        {
            let a: &str = args[i];
            let owned = a.to_owned();
            let ghost prev = out@;
            out.push(owned);
            assert(strs_view(args@)[i as int] == a@);
            assert(strings_view(out@) =~= strings_view(prev).push(a@));
            assert(strs_view(args@).take(i + 1) =~= strs_view(args@).take(i as int).push(a@));
            assert(strings_view(out@) =~= strs_view(args@).take(i + 1));
            i = i + 1;
        }
        assert(strs_view(args@).take(args.len() as int) =~= strs_view(args@));
        Command { program: program.to_owned(), args: out, input: None }
    }

    /// The same command, with `input` fed to its standard input.
    pub fn with_input(self, input: String) -> (r: Command)
        ensures
            r@ == (CommandView { input: Some(input@), ..self@ }),
    {
        Command { program: self.program, args: self.args, input: Some(input) }
    }
}

} // verus!
