//! The vocabulary shared by every run: what a run asks its driver to do, and
//! what the driver reports back.

use crate::text::join2;
use vstd::prelude::*;
use vstd::string::*;

verus! {

/// What the driver reports once it has performed an action.
#[derive(Clone, Debug, PartialEq, Eq)]
pub struct Report {
    /// Whether the action went through: the path exists, the command ran and
    /// exited with status zero, the file was read or written.
    pub success: bool,
    /// What the action produced: a command's standard output, a file's
    /// content, a resolved path.  Empty where the action produces nothing.
    pub output: Vec<u8>,
}

/// A report as the contracts see it.
pub struct ReportView {
    pub success: bool,
    pub output: Seq<u8>,
}

impl View for Report {
    type V = ReportView;

    open spec fn view(&self) -> ReportView {
        ReportView { success: self.success, output: self.output@ }
    }
}

impl Report {
    /// A report with the given verdict and output.
    pub fn new(success: bool, output: Vec<u8>) -> (report: Report)
        ensures
            report@ == (ReportView { success, output: output@ }),
    {
        Report { success, output }
    }

    /// The report of an action that went through and produced nothing.
    pub fn done() -> (report: Report)
        ensures
            report@ == (ReportView { success: true, output: Seq::empty() }),
    {
        Report { success: true, output: Vec::new() }
    }

    /// The report of an action that failed.
    pub fn failed() -> (report: Report)
        ensures
            report@ == (ReportView { success: false, output: Seq::empty() }),
    {
        Report { success: false, output: Vec::new() }
    }
}

/// One thing a run asks its driver to do.
#[derive(Clone, Debug, PartialEq, Eq)]
pub enum Action {
    /// Print `line` on standard output, where the build orchestrator reads it.
    Print { line: String },
    /// Look whether `path` exists.  Succeeds if it does.
    Probe { path: String },
    /// Run `program` with `args`, in directory `dir` unless that is empty.
    /// Succeeds if the program could be started and exited with status zero;
    /// the output is what it wrote on standard output.
    Run { program: String, args: Vec<String>, dir: String },
    /// Resolve `path` to its canonical, absolute form, which is the output.
    Resolve { path: String },
    /// Create directory `path` and every missing parent.
    CreateDirAll { path: String },
    /// Move the file `from` to `to`.
    Rename { from: String, to: String },
    /// Remove directory `path` and everything below it.
    RemoveTree { path: String },
    /// Write `bytes` to the file `path`, replacing what it held.
    Write { path: String, bytes: Vec<u8> },
    /// Read the file `path` to its end.  The output is its content.
    Read { path: String },
    /// Remove the file or link `path`.
    RemoveFile { path: String },
    /// Create the symbolic link `link`, pointing at `file`.
    Symlink { file: String, link: String },
    /// Compile the program `source` with `include_dir` on the include path
    /// and write the generated binding to `binding`.  On failure the output
    /// is the compiler's message.
    Compile { source: String, include_dir: String, binding: String },
}

/// An action as the contracts see it.
pub enum ActionView {
    Print { line: Seq<char> },
    Probe { path: Seq<char> },
    Run { program: Seq<char>, args: Seq<Seq<char>>, dir: Seq<char> },
    Resolve { path: Seq<char> },
    CreateDirAll { path: Seq<char> },
    Rename { from: Seq<char>, to: Seq<char> },
    RemoveTree { path: Seq<char> },
    Write { path: Seq<char>, bytes: Seq<u8> },
    Read { path: Seq<char> },
    RemoveFile { path: Seq<char> },
    Symlink { file: Seq<char>, link: Seq<char> },
    Compile { source: Seq<char>, include_dir: Seq<char>, binding: Seq<char> },
}

impl View for Action {
    type V = ActionView;

    open spec fn view(&self) -> ActionView {
        match *self {
            Action::Print { line } => ActionView::Print { line: line@ },
            Action::Probe { path } => ActionView::Probe { path: path@ },
            Action::Run { program, args, dir } => ActionView::Run {
                program: program@,
                args: args.deep_view(),
                dir: dir@,
            },
            Action::Resolve { path } => ActionView::Resolve { path: path@ },
            Action::CreateDirAll { path } => ActionView::CreateDirAll { path: path@ },
            Action::Rename { from, to } => ActionView::Rename { from: from@, to: to@ },
            Action::RemoveTree { path } => ActionView::RemoveTree { path: path@ },
            Action::Write { path, bytes } => ActionView::Write { path: path@, bytes: bytes@ },
            Action::Read { path } => ActionView::Read { path: path@ },
            Action::RemoveFile { path } => ActionView::RemoveFile { path: path@ },
            Action::Symlink { file, link } => ActionView::Symlink {
                file: file@,
                link: link@,
            },
            Action::Compile { source, include_dir, binding } => ActionView::Compile {
                source: source@,
                include_dir: include_dir@,
                binding: binding@,
            },
        }
    }
}

impl ActionView {
    /// Whether performing the action starts another program.
    pub open spec fn spawns(self) -> bool {
        self is Run || self is Compile
    }

    /// Whether performing the action may change what is on disk.
    pub open spec fn mutates(self) -> bool {
        !(self is Print || self is Probe || self is Resolve || self is Read)
    }
}

/// What a run answers to a report: the next action, or how it ended.
#[derive(Debug, PartialEq, Eq)]
pub enum Step<E> {
    /// The driver performs the action and reports on it.
    Perform(Action),
    /// The run is over, with this result.
    Finished(Result<(), E>),
    /// The run is over and failed, and its owner asked for failure to be
    /// fatal: the driver stops the whole build.
    Aborted(E),
}

/// A step as the contracts see it.
pub enum StepView<E> {
    Perform(ActionView),
    Finished(Result<(), E>),
    Aborted(E),
}

impl<E> View for Step<E> {
    type V = StepView<E>;

    open spec fn view(&self) -> StepView<E> {
        match *self {
            Step::Perform(action) => StepView::Perform(action@),
            Step::Finished(result) => StepView::Finished(result),
            Step::Aborted(error) => StepView::Aborted(error),
        }
    }
}

impl<E> StepView<E> {
    /// Whether the step ends the run.
    pub open spec fn is_final(self) -> bool {
        !(self is Perform)
    }
}

/// The line that tells the build orchestrator to run the build again when
/// `path` changes.
pub open spec fn rerun_if_changed(path: Seq<char>) -> ActionView {
    ActionView::Print { line: "cargo:rerun-if-changed="@ + path }
}

/// The action that declares `path` as something the build depends on.
pub fn declare_dependency(path: &str) -> (action: Action)
    ensures
        action@ == rerun_if_changed(path@),
{
    Action::Print { line: join2("cargo:rerun-if-changed=", path) }
}

/// How a run with `result` ends: a failure is fatal where the run is strict.
pub open spec fn verdict<E>(strict: bool, result: Result<(), E>) -> StepView<E> {
    match result {
        Err(error) if strict => StepView::Aborted(error),
        _ => StepView::Finished(result),
    }
}

/// The step that ends a run with `result`.
pub fn conclude<E: Copy>(strict: bool, result: Result<(), E>) -> (step: Step<E>)
    ensures
        step@ == verdict(strict, result),
{
    match result {
        Err(error) => {
            if strict {
                Step::Aborted(error)
            } else {
                Step::Finished(result)
            }
        },
        Ok(_) => Step::Finished(result),
    }
}

} // verus!
