use vstd::prelude::*;
use vstd::string::*;

verus! {

/// Mark that opens the message of a task that succeeded.
pub const CHECK: &'static str = "✅";

/// Mark that opens the message of a task that failed.
pub const CROSS: &'static str = "❌";

/// The recorded result of running one task.
pub struct Outcome {
    pub label: String,
    pub succeeded: bool,
    pub message: String,
}

/// Mathematical model of an `Outcome`.
pub struct OutcomeView {
    pub label: Seq<char>,
    pub succeeded: bool,
    pub message: Seq<char>,
}

impl View for Outcome {
    type V = OutcomeView;

    open spec fn view(&self) -> OutcomeView {
        OutcomeView { label: self.label@, succeeded: self.succeeded, message: self.message@ }
    }
}

/// The outcome of the task named `label`.
pub open spec fn outcome_of(label: Seq<char>, ok: bool, message: Seq<char>) -> OutcomeView {
    OutcomeView { label, succeeded: ok, message }
}

/// The mark that opens the rendered result of a task.
pub open spec fn mark(ok: bool) -> Seq<char> {
    if ok {
        CHECK@
    } else {
        CROSS@
    }
}

/// How an outcome reads in the report: its mark, a space, then its message.
pub open spec fn rendered(o: OutcomeView) -> Seq<char> {
    mark(o.succeeded) + " "@ + o.message
}

impl Outcome {
    /// The outcome of the task named `label`.
    pub fn new(label: &str, ok: bool, message: &str) -> (r: Outcome)
        ensures
            r@ == outcome_of(label@, ok, message@),
    {
        Outcome { label: label.to_owned(), succeeded: ok, message: message.to_owned() }
    }

    /// The outcome as the report shows it, mark first.
    pub fn render(&self) -> (r: String)
        ensures
            r@ == rendered(self@),
    {
        let m = if self.succeeded {
            CHECK
        } else {
            CROSS
        };
        m.to_owned().concat(" ").concat(self.message.as_str())
    }
}

} // verus!
