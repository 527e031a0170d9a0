//! Publishing a generated binding under an alias.
//!
//! The alias is a symbolic link to the binding.  It is replaced only when
//! what it holds differs from the binding, so that publishing again changes
//! nothing on disk and downstream caches stay valid.

use crate::protocol::{
    conclude, declare_dependency, rerun_if_changed, verdict, Action, ActionView, Report,
    ReportView, Step, StepView,
};
use crate::target::BuildBpf;
use vstd::prelude::*;
use vstd::string::*;

verus! {

/// Why two files could not be compared.
#[derive(Clone, Copy, Debug, PartialEq, Eq, Structural)]
pub enum DiffError {
    /// The first file could not be read.
    File1Read,
    /// The second file could not be read.
    File2Read,
}

/// Why a binding could not be published.
#[derive(Clone, Copy, Debug, PartialEq, Eq, Structural)]
pub enum PublishError {
    /// The binding cannot be read: there is nothing to publish.
    SourceMissing,
    /// The link could not be created.
    LinkFailed,
}

/// What is to be done about the alias.
#[derive(Clone, Copy, Debug, PartialEq, Eq, Structural)]
pub enum LinkAction {
    /// The alias holds what the binding holds and stays as it is.
    Keep,
    /// The alias is removed, if there is one, and linked to the binding.
    Replace,
}

/// Whether two files differ, given what could be read of each; `None`
/// stands for a file that could not be read.
pub open spec fn content_differs(file1: Option<Seq<u8>>, file2: Option<Seq<u8>>) -> Result<
    bool,
    DiffError,
> {
    match (file1, file2) {
        (None, _) => Err(DiffError::File1Read),
        (Some(_), None) => Err(DiffError::File2Read),
        (Some(a), Some(b)) => Ok(a != b),
    }
}

/// What is to be done about an alias that holds `dest` for a binding that
/// holds `source`.
pub open spec fn link_decision(source: Option<Seq<u8>>, dest: Option<Seq<u8>>) -> Result<
    LinkAction,
    PublishError,
> {
    match content_differs(source, dest) {
        Err(DiffError::File1Read) => Err(PublishError::SourceMissing),
        Ok(false) => Ok(LinkAction::Keep),
        _ => Ok(LinkAction::Replace),
    }
}

/// What was read of a file, as the contracts see it.
pub open spec fn content(file: Option<&Vec<u8>>) -> Option<Seq<u8>> {
    match file {
        Some(bytes) => Some(bytes@),
        None => None,
    }
}

/// Whether `a` and `b` hold the same bytes.
pub fn same_bytes(a: &Vec<u8>, b: &Vec<u8>) -> (same: bool)
    ensures
        same == (a@ == b@),
{
    if a.len() != b.len() {
        return false;
    }
    let mut i: usize = 0;
    while i < a.len()
        invariant
            a.len() == b.len(),
            i <= a.len(),
            forall|k: int| 0 <= k < i ==> a@[k] == b@[k],
        decreases a.len() - i,
    {
        if a[i] != b[i] {
            return false;
        }
        i += 1;
    }
    assert(a@ =~= b@);
    true
}

/// Whether two files differ, given what could be read of each.
pub fn try_file_content_differs(file1: Option<&Vec<u8>>, file2: Option<&Vec<u8>>) -> (differs:
    Result<bool, DiffError>)
    ensures
        differs == content_differs(content(file1), content(file2)),
{
    match file1 {
        None => Err(DiffError::File1Read),
        Some(a) => match file2 {
            None => Err(DiffError::File2Read),
            Some(b) => Ok(!same_bytes(a, b)),
        },
    }
}

/// What is to be done about an alias, given what could be read of the
/// binding and of the alias: nothing where both hold the same bytes, a new
/// link where they differ or the alias cannot be read, and an error where
/// the binding cannot be read.
pub fn sym_link_when_files_differ(source: Option<&Vec<u8>>, dest: Option<&Vec<u8>>) -> (decision:
    Result<LinkAction, PublishError>)
    ensures
        decision == link_decision(content(source), content(dest)),
{
    match try_file_content_differs(source, dest) {
        Err(DiffError::File1Read) => Err(PublishError::SourceMissing),
        Ok(false) => Ok(LinkAction::Keep),
        _ => Ok(LinkAction::Replace),
    }
}

/// Where a publishing run stands: each phase but the first and the last
/// names the action whose report the run is waiting for.
#[derive(Clone, Copy, Debug, PartialEq, Eq, Structural)]
pub enum PublishPhase {
    Start,
    Declared,
    SourceRead,
    DestRead,
    Removed,
    Linked,
    Finished,
}

/// The state of a publishing run as the contracts see it.
pub struct PublishState {
    /// The binding.
    pub from: Seq<char>,
    /// The alias.
    pub to: Seq<char>,
    /// Whether failure is fatal.
    pub strict: bool,
    pub phase: PublishPhase,
    /// What the binding holds, once it has been read.
    pub source: Seq<u8>,
    /// How the run ended, once it has.
    pub result: Result<(), PublishError>,
}

/// A publishing run that has not begun.
pub open spec fn publish_start(from: Seq<char>, to: Seq<char>, strict: bool) -> PublishState {
    PublishState {
        from,
        to,
        strict,
        phase: PublishPhase::Start,
        source: Seq::empty(),
        result: Ok(()),
    }
}

/// The run asks for `action` and waits in `phase`.
pub open spec fn publish_ask(s: PublishState, phase: PublishPhase, action: ActionView) -> (
    PublishState,
    StepView<PublishError>,
) {
    (PublishState { phase, ..s }, StepView::Perform(action))
}

/// The run ends with `result`.
pub open spec fn publish_end(s: PublishState, result: Result<(), PublishError>) -> (
    PublishState,
    StepView<PublishError>,
) {
    (PublishState { phase: PublishPhase::Finished, result, ..s }, verdict(s.strict, result))
}

/// The transition: the state after `report` has come in, and what the run
/// answers to it.  In `PublishPhase::Start` the report is not looked at, nor
/// are the reports of the declaration and of the removal.
pub open spec fn publish_next(s: PublishState, report: ReportView) -> (
    PublishState,
    StepView<PublishError>,
) {
    match s.phase {
        PublishPhase::Start => publish_ask(s, PublishPhase::Declared, rerun_if_changed(s.to)),
        PublishPhase::Declared => publish_ask(
            s,
            PublishPhase::SourceRead,
            ActionView::Read { path: s.from },
        ),
        PublishPhase::SourceRead => if !report.success {
            publish_end(s, Err(PublishError::SourceMissing))
        } else {
            publish_ask(
                PublishState { source: report.output, ..s },
                PublishPhase::DestRead,
                ActionView::Read { path: s.to },
            )
        },
        PublishPhase::DestRead => match link_decision(
            Some(s.source),
            if report.success {
                Some(report.output)
            } else {
                None
            },
        ) {
            Ok(LinkAction::Keep) => publish_end(s, Ok(())),
            Ok(LinkAction::Replace) => publish_ask(
                s,
                PublishPhase::Removed,
                ActionView::RemoveFile { path: s.to },
            ),
            Err(error) => publish_end(s, Err(error)),
        },
        PublishPhase::Removed => publish_ask(
            s,
            PublishPhase::Linked,
            ActionView::Symlink { file: s.from, link: s.to },
        ),
        PublishPhase::Linked => if !report.success {
            publish_end(s, Err(PublishError::LinkFailed))
        } else {
            publish_end(s, Ok(()))
        },
        PublishPhase::Finished => (s, verdict(s.strict, s.result)),
    }
}

/// A run that publishes one binding under one alias.
pub struct PublishRun {
    from: String,
    to: String,
    strict: bool,
    phase: PublishPhase,
    source: Vec<u8>,
    result: Result<(), PublishError>,
}

impl View for PublishRun {
    type V = PublishState;

    closed spec fn view(&self) -> PublishState {
        PublishState {
            from: self.from@,
            to: self.to@,
            strict: self.strict,
            phase: self.phase,
            source: self.source@,
            result: self.result,
        }
    }
}

impl PublishRun {
    /// A run that publishes the binding `from` under the alias `to`.
    pub fn new(from: &str, to: &str, strict: bool) -> (run: PublishRun)
        ensures
            run@ == publish_start(from@, to@, strict),
    {
        PublishRun {
            from: String::from_str(from),
            to: String::from_str(to),
            strict,
            phase: PublishPhase::Start,
            source: Vec::new(),
            result: Ok(()),
        }
    }

    fn ask(&mut self, phase: PublishPhase, action: Action) -> (step: Step<PublishError>)
        ensures
            final(self)@ == publish_ask(old(self)@, phase, action@).0,
            step@ == publish_ask(old(self)@, phase, action@).1,
    {
        self.phase = phase;
        Step::Perform(action)
    }

    fn end(&mut self, result: Result<(), PublishError>) -> (step: Step<PublishError>)
        ensures
            final(self)@ == publish_end(old(self)@, result).0,
            step@ == publish_end(old(self)@, result).1,
    {
        self.phase = PublishPhase::Finished;
        self.result = result;
        conclude(self.strict, result)
    }

    /// Takes the report of the action asked for last and answers with the
    /// next action, or with the result of the run.  The first call begins the
    /// run; its report is not looked at.  Once the run has ended, every call
    /// answers as the call that ended it.
    pub fn step(&mut self, report: Report) -> (step: Step<PublishError>)
        ensures
            final(self)@ == publish_next(old(self)@, report@).0,
            step@ == publish_next(old(self)@, report@).1,
    {
        match self.phase {
            PublishPhase::Start => {
                let action = declare_dependency(self.to.as_str());
                self.ask(PublishPhase::Declared, action)
            },
            PublishPhase::Declared => {
                let path = self.from.clone();
                self.ask(PublishPhase::SourceRead, Action::Read { path })
            },
            PublishPhase::SourceRead => {
                if !report.success {
                    self.end(Err(PublishError::SourceMissing))
                } else {
                    self.source = report.output;
                    let path = self.to.clone();
                    self.ask(PublishPhase::DestRead, Action::Read { path })
                }
            },
            PublishPhase::DestRead => {
                let dest = if report.success {
                    Some(&report.output)
                } else {
                    None
                };
                match sym_link_when_files_differ(Some(&self.source), dest) {
                    Ok(LinkAction::Keep) => self.end(Ok(())),
                    Ok(LinkAction::Replace) => {
                        let path = self.to.clone();
                        self.ask(PublishPhase::Removed, Action::RemoveFile { path })
                    },
                    Err(error) => self.end(Err(error)),
                }
            },
            PublishPhase::Removed => {
                let file = self.from.clone();
                let link = self.to.clone();
                self.ask(PublishPhase::Linked, Action::Symlink { file, link })
            },
            PublishPhase::Linked => {
                if !report.success {
                    self.end(Err(PublishError::LinkFailed))
                } else {
                    self.end(Ok(()))
                }
            },
            PublishPhase::Finished => conclude(self.strict, self.result),
        }
    }
}

impl BuildBpf {
    /// A run that publishes the target's binding under the alias `dst`.  A
    /// failure ends the run with its error.
    pub fn try_sym_link_skel_to(&self, dst: &str) -> (run: PublishRun)
        ensures
            run@ == publish_start(self@.skel_dst_file, dst@, false),
    {
        PublishRun::new(self.binding(), dst, false)
    }

    /// A run that publishes the target's binding under the alias `dst`.  A
    /// failure is fatal: the run ends by asking for the build to be stopped.
    pub fn must_sym_link_skel_to(&self, dst: &str) -> (run: PublishRun)
        ensures
            run@ == publish_start(self@.skel_dst_file, dst@, true),
    {
        PublishRun::new(self.binding(), dst, true)
    }
}

} // verus!
