//! The programs that the helper runs, and what their failures mean.
//!
//! The host runs a call and looks at how it ended; what is run, and what
//! is reported when it fails, is laid down here.

use vstd::prelude::*;
use crate::text::{contains, occurs_in, trim, trimmed};

verus! {

/// What is reported where a program ran and failed.
#[derive(Debug)]
pub enum Failure {
    /// Always the same.
    Message(String),
    /// This, followed by what the program wrote to its error stream,
    /// without the white space at its ends.
    WithStderr(String),
    /// The message of the first case whose mark stands in what the program
    /// wrote to its error stream; the last message where none does.
    ByStderr(Vec<(String, String)>, String),
}

pub enum FailureView {
    Message(Seq<char>),
    WithStderr(Seq<char>),
    ByStderr(Seq<(Seq<char>, Seq<char>)>, Seq<char>),
}

impl View for Failure {
    type V = FailureView;

    open spec fn view(&self) -> FailureView {
        match *self {
            Failure::Message(message) => FailureView::Message(message@),
            Failure::WithStderr(prefix) => FailureView::WithStderr(prefix@),
            Failure::ByStderr(cases, fallback) => FailureView::ByStderr(
                cases.deep_view(),
                fallback@,
            ),
        }
    }
}

/// The message of the first case whose mark stands in `stderr`.
pub open spec fn classified(
    cases: Seq<(Seq<char>, Seq<char>)>,
    fallback: Seq<char>,
    stderr: Seq<char>,
) -> Seq<char>
    decreases cases.len(),
{
    if cases.len() == 0 {
        fallback
    } else if occurs_in(cases[0].0, stderr) {
        cases[0].1
    } else {
        classified(cases.drop_first(), fallback, stderr)
    }
}

impl FailureView {
    /// What is reported for a failure that left `stderr`.
    pub open spec fn explained(self, stderr: Seq<char>) -> Seq<char> {
        match self {
            FailureView::Message(message) => message,
            FailureView::WithStderr(prefix) => prefix + trimmed(stderr),
            FailureView::ByStderr(cases, fallback) => classified(cases, fallback, stderr),
        }
    }
}

impl Failure {
    /// What is reported for a failure that left `stderr`.
    pub fn explain(&self, stderr: &str) -> (message: String)
        ensures
            message@ == self@.explained(stderr@),
    {
        match self {
            Failure::Message(message) => message.clone(),
            Failure::WithStderr(prefix) => prefix.clone().concat(trim(stderr)),
            Failure::ByStderr(cases, fallback) => {
                let ghost all = cases.deep_view();
                let mut i: usize = 0;
                assert(all.skip(0) =~= all);
                while i < cases.len()
                    invariant
                        i <= cases.len(),
                        all == cases.deep_view(),
                        self@ == FailureView::ByStderr(all, fallback@),
                        classified(all, fallback@, stderr@) == classified(
                            all.skip(i as int),
                            fallback@,
                            stderr@,
                        ),
                    decreases cases.len() - i,
                {
                    assert(all.skip(i as int).drop_first() =~= all.skip(i + 1));
                    if contains(stderr, cases[i].0.as_str()) {
                        return cases[i].1.clone();
                    }
                    i += 1;
                }
                fallback.clone()
            },
        }
    }
}

/// A program to run, with what is reported when it goes wrong.
#[derive(Debug)]
pub struct Call {
    pub program: String,
    pub args: Vec<String>,
    /// What the program is given to read, where it is given anything.
    pub input: Option<String>,
    /// What is reported where the program could not be run at all.
    pub context: String,
    /// What is reported where the program ran and failed.
    pub failure: Failure,
}

pub struct CallView {
    pub program: Seq<char>,
    pub args: Seq<Seq<char>>,
    pub input: Option<Seq<char>>,
    pub context: Seq<char>,
    pub failure: FailureView,
}

impl View for Call {
    type V = CallView;

    open spec fn view(&self) -> CallView {
        CallView {
            program: self.program@,
            args: self.args.deep_view(),
            input: self.input.deep_view(),
            context: self.context@,
            failure: self.failure@,
        }
    }
}

impl DeepView for Call {
    type V = CallView;

    open spec fn deep_view(&self) -> CallView {
        self@
    }
}

/// A call that reports `failure` when the program fails.
pub open spec fn call(
    program: Seq<char>,
    args: Seq<Seq<char>>,
    context: Seq<char>,
    failure: Seq<char>,
) -> CallView {
    CallView { program, args, input: None, context, failure: FailureView::Message(failure) }
}

/// A call that reports `failure` when the program fails.
pub fn plain(program: &str, args: Vec<String>, context: &str, failure: &str) -> (made: Call)
    ensures
        made@ == call(program@, args.deep_view(), context@, failure@),
{
    Call {
        program: program.to_owned(),
        args,
        input: None,
        context: context.to_owned(),
        failure: Failure::Message(failure.to_owned()),
    }
}

/// A program that is run for what it tells: nothing is reported when it
/// cannot be run or fails.
#[derive(Debug)]
pub struct Probe {
    pub program: String,
    pub args: Vec<String>,
}

pub struct ProbeView {
    pub program: Seq<char>,
    pub args: Seq<Seq<char>>,
}

impl View for Probe {
    type V = ProbeView;

    open spec fn view(&self) -> ProbeView {
        ProbeView { program: self.program@, args: self.args.deep_view() }
    }
}

/// A probe.
pub fn probe(program: &str, args: Vec<String>) -> (made: Probe)
    ensures
        made@ == (ProbeView { program: program@, args: args.deep_view() }),
{
    Probe { program: program.to_owned(), args }
}

} // verus!
