//! Acquisition of the kernel type headers.
//!
//! A header root holds one directory per kernel architecture plus the
//! directory `host`, each with one file `vmlinux_header`.  The root's existence is
//! the cache: a run that finds the root does nothing else.  Otherwise the run
//! checks that the host can describe its kernel's types, optionally places
//! the headers of a snapshot repository, and always writes the host's own
//! header.
//!
//! Nothing is rolled back.  A run that fails after it has begun to fill the
//! root leaves behind what it has placed, and since the root then exists, the
//! next run takes it for complete.  Whoever wants the headers acquired anew
//! removes the root first.

use crate::protocol::{Action, ActionView, Report, ReportView, Step, StepView};
use crate::text::{join2, join3, join4, nonempty_lines, read_text, split_lines, trim, trimmed, utf8_text};
use vstd::prelude::*;
use vstd::string::*;

verus! {

/// Why the headers could not be acquired.
#[derive(Clone, Copy, Debug, PartialEq, Eq, Structural)]
pub enum AcquireError {
    /// The host does not expose its kernel's type information.
    BtfUnavailable,
    /// The tool that dumps the type information is not on the search path.
    ToolMissing,
    /// The snapshot could not be fetched, or a header of it could not be put
    /// in place.
    FetchFailed,
    /// The snapshot does not look as expected: its header directory, the
    /// listing of it or the header of an architecture is missing.
    LayoutUnexpected,
    /// The host's header could not be produced: its directory could not be
    /// made, the dump failed or the file could not be written.
    DumpFailed,
    /// The temporary directory could not be made, named or removed.
    ResourceSetup,
}

/// Where a run stands: each phase but the first and the last names the
/// action whose report the run is waiting for.
#[derive(Clone, Copy, Debug, PartialEq, Eq, Structural)]
pub enum Phase {
    Start,
    RootProbed,
    BtfProbed,
    ToolLocated,
    TempMade,
    TempProbed,
    Cloned,
    SnapshotProbed,
    Listed,
    Resolved,
    ArchDirProbed,
    ArchDirCreated,
    Moved,
    ReleaseProbed,
    Released,
    HostDirCreated,
    Dumped,
    Written,
    Finished,
}

/// The state of a run as the contracts see it.
pub struct HeaderState {
    /// The header root.
    pub root: Seq<char>,
    /// Whether the headers of the snapshot are wanted.
    pub with_archs: bool,
    /// Where the snapshot is cloned from.
    pub url: Seq<char>,
    pub phase: Phase,
    /// The temporary directory, once it has a name.
    pub temp: Seq<char>,
    /// Whether the temporary directory is known to exist.
    pub holding: bool,
    /// The architecture directories of the snapshot not placed yet.
    pub pending: Seq<Seq<char>>,
    /// The architecture directory in hand.
    pub arch: Seq<char>,
    /// The resolved header file of the architecture in hand.
    pub source: Seq<char>,
    /// What went wrong below the temporary directory, reported once the
    /// directory is released.
    pub failure: Option<AcquireError>,
    /// How the run ended, once it has.
    pub result: Result<(), AcquireError>,
}

/// The file whose existence says that the host exposes its kernel's types.
pub open spec fn btf_path() -> Seq<char> {
    "/sys/kernel/btf/vmlinux"@
}

/// The repository that holds the headers of the other architectures.
pub open spec fn snapshot_url() -> Seq<char> {
    "https://github.com/libbpf/libbpf-bootstrap"@
}

/// Where the snapshot is cloned to.
pub open spec fn snapshot_dir(temp: Seq<char>) -> Seq<char> {
    temp + "/libbpf-bootstrap"@
}

/// The directory of the snapshot that holds one directory per architecture.
pub open spec fn snapshot_headers(temp: Seq<char>) -> Seq<char> {
    temp + "/libbpf-bootstrap/vmlinux"@
}

/// The header of architecture directory `arch` in the snapshot, where it is
/// called `vmlinux.h`.
pub open spec fn arch_source(temp: Seq<char>, arch: Seq<char>) -> Seq<char> {
    snapshot_headers(temp) + "/"@ + arch + "/vmlinux.h"@
}

/// The directory of `arch` below the header root.
pub open spec fn arch_dir(root: Seq<char>, arch: Seq<char>) -> Seq<char> {
    root + "/"@ + arch
}

/// The header of `arch` below the header root.
pub open spec fn arch_header(root: Seq<char>, arch: Seq<char>) -> Seq<char> {
    root + "/"@ + arch + "/vmlinux_header"@
}

/// The directory of the host's own header.
pub open spec fn host_dir(root: Seq<char>) -> Seq<char> {
    root + "/host"@
}

/// The host's own header.
pub open spec fn host_header(root: Seq<char>) -> Seq<char> {
    root + "/host"@ + "/vmlinux_header"@
}

/// `which bpftool`
pub open spec fn locate_tool() -> ActionView {
    ActionView::Run { program: "which"@, args: seq!["bpftool"@], dir: Seq::empty() }
}

/// `mktemp -d`
pub open spec fn make_temp() -> ActionView {
    ActionView::Run { program: "mktemp"@, args: seq!["-d"@], dir: Seq::empty() }
}

/// `git clone <url> <temp>/libbpf-bootstrap`
pub open spec fn clone_snapshot(url: Seq<char>, temp: Seq<char>) -> ActionView {
    ActionView::Run {
        program: "git"@,
        args: seq!["clone"@, url, snapshot_dir(temp)],
        dir: Seq::empty(),
    }
}

/// `find . -mindepth 1 -maxdepth 1 -type d`, in the snapshot's header directory
pub open spec fn list_archs(temp: Seq<char>) -> ActionView {
    ActionView::Run {
        program: "find"@,
        args: seq!["."@, "-mindepth"@, "1"@, "-maxdepth"@, "1"@, "-type"@, "d"@],
        dir: snapshot_headers(temp),
    }
}

/// `bpftool btf dump file /sys/kernel/btf/vmlinux format c`
pub open spec fn dump_types() -> ActionView {
    ActionView::Run {
        program: "bpftool"@,
        args: seq!["btf"@, "dump"@, "file"@, btf_path(), "format"@, "c"@],
        dir: Seq::empty(),
    }
}

/// A run that has not begun.
pub open spec fn start_from(root: Seq<char>, with_archs: bool, url: Seq<char>) -> HeaderState {
    HeaderState {
        root,
        with_archs,
        url,
        phase: Phase::Start,
        temp: Seq::empty(),
        holding: false,
        pending: Seq::empty(),
        arch: Seq::empty(),
        source: Seq::empty(),
        failure: None,
        result: Ok(()),
    }
}

/// A run that has not begun and takes the snapshot from its usual place.
pub open spec fn start(root: Seq<char>, with_archs: bool) -> HeaderState {
    start_from(root, with_archs, snapshot_url())
}

/// The run asks for `action` and waits in `phase`.
pub open spec fn ask(s: HeaderState, phase: Phase, action: ActionView) -> (
    HeaderState,
    StepView<AcquireError>,
) {
    (HeaderState { phase, ..s }, StepView::Perform(action))
}

/// The run ends with `result`.
pub open spec fn finish(s: HeaderState, result: Result<(), AcquireError>) -> (
    HeaderState,
    StepView<AcquireError>,
) {
    (HeaderState { phase: Phase::Finished, result, ..s }, StepView::Finished(result))
}

/// The run turns to the host's own header.
pub open spec fn begin_host(s: HeaderState) -> (HeaderState, StepView<AcquireError>) {
    ask(s, Phase::HostDirCreated, ActionView::CreateDirAll { path: host_dir(s.root) })
}

/// The run is done below the temporary directory, with `failure` if
/// something went wrong there, and looks whether the directory is left.
pub open spec fn release(s: HeaderState, failure: Option<AcquireError>) -> (
    HeaderState,
    StepView<AcquireError>,
) {
    ask(HeaderState { failure, ..s }, Phase::ReleaseProbed, ActionView::Probe { path: s.temp })
}

/// The temporary directory is gone: the run reports what went wrong below
/// it, or goes on.
pub open spec fn released(s: HeaderState) -> (HeaderState, StepView<AcquireError>) {
    let s = HeaderState { holding: false, ..s };
    match s.failure {
        Some(error) => finish(s, Err(error)),
        None => begin_host(s),
    }
}

/// The run takes up the next architecture of the snapshot, or leaves the
/// snapshot where none is left.
pub open spec fn next_arch(s: HeaderState) -> (HeaderState, StepView<AcquireError>) {
    if s.pending.len() == 0 {
        release(s, None)
    } else {
        let arch = s.pending[0];
        ask(
            HeaderState { arch, pending: s.pending.skip(1), ..s },
            Phase::Resolved,
            ActionView::Resolve { path: arch_source(s.temp, arch) },
        )
    }
}

/// The run moves the header in hand to its place.
pub open spec fn place(s: HeaderState) -> (HeaderState, StepView<AcquireError>) {
    ask(
        s,
        Phase::Moved,
        ActionView::Rename { from: s.source, to: arch_header(s.root, s.arch) },
    )
}

/// The transition: the state after `report` has come in, and what the run
/// answers to it.  In `Phase::Start` the report is not looked at.
pub open spec fn next(s: HeaderState, report: ReportView) -> (HeaderState, StepView<AcquireError>) {
    match s.phase {
        Phase::Start => ask(s, Phase::RootProbed, ActionView::Probe { path: s.root }),
        Phase::RootProbed => if report.success {
            finish(s, Ok(()))
        } else {
            ask(s, Phase::BtfProbed, ActionView::Probe { path: btf_path() })
        },
        Phase::BtfProbed => if !report.success {
            finish(s, Err(AcquireError::BtfUnavailable))
        } else {
            ask(s, Phase::ToolLocated, locate_tool())
        },
        Phase::ToolLocated => if !report.success {
            finish(s, Err(AcquireError::ToolMissing))
        } else if s.with_archs {
            ask(s, Phase::TempMade, make_temp())
        } else {
            begin_host(s)
        },
        Phase::TempMade => match utf8_text(report.output) {
            Some(name) if report.success => ask(
                HeaderState { temp: trimmed(name), ..s },
                Phase::TempProbed,
                ActionView::Probe { path: trimmed(name) },
            ),
            _ => finish(s, Err(AcquireError::ResourceSetup)),
        },
        Phase::TempProbed => if !report.success {
            finish(s, Err(AcquireError::ResourceSetup))
        } else {
            ask(HeaderState { holding: true, ..s }, Phase::Cloned, clone_snapshot(s.url, s.temp))
        },
        Phase::Cloned => if !report.success {
            release(s, Some(AcquireError::FetchFailed))
        } else {
            ask(s, Phase::SnapshotProbed, ActionView::Probe { path: snapshot_headers(s.temp) })
        },
        Phase::SnapshotProbed => if !report.success {
            release(s, Some(AcquireError::LayoutUnexpected))
        } else {
            ask(s, Phase::Listed, list_archs(s.temp))
        },
        Phase::Listed => match utf8_text(report.output) {
            Some(listing) if report.success => next_arch(
                HeaderState { pending: nonempty_lines(listing), ..s },
            ),
            _ => release(s, Some(AcquireError::LayoutUnexpected)),
        },
        Phase::Resolved => match utf8_text(report.output) {
            Some(source) if report.success => ask(
                HeaderState { source, ..s },
                Phase::ArchDirProbed,
                ActionView::Probe { path: arch_dir(s.root, s.arch) },
            ),
            _ => release(s, Some(AcquireError::LayoutUnexpected)),
        },
        Phase::ArchDirProbed => if report.success {
            place(s)
        } else {
            ask(
                s,
                Phase::ArchDirCreated,
                ActionView::CreateDirAll { path: arch_dir(s.root, s.arch) },
            )
        },
        Phase::ArchDirCreated => if !report.success {
            release(s, Some(AcquireError::FetchFailed))
        } else {
            place(s)
        },
        Phase::Moved => if !report.success {
            release(s, Some(AcquireError::FetchFailed))
        } else {
            next_arch(s)
        },
        Phase::ReleaseProbed => if report.success {
            ask(s, Phase::Released, ActionView::RemoveTree { path: s.temp })
        } else {
            released(s)
        },
        Phase::Released => if !report.success {
            finish(s, Err(AcquireError::ResourceSetup))
        } else {
            released(s)
        },
        Phase::HostDirCreated => if !report.success {
            finish(s, Err(AcquireError::DumpFailed))
        } else {
            ask(s, Phase::Dumped, dump_types())
        },
        Phase::Dumped => if !report.success {
            finish(s, Err(AcquireError::DumpFailed))
        } else {
            ask(
                s,
                Phase::Written,
                ActionView::Write { path: host_header(s.root), bytes: report.output },
            )
        },
        Phase::Written => if !report.success {
            finish(s, Err(AcquireError::DumpFailed))
        } else {
            finish(s, Ok(()))
        },
        Phase::Finished => (s, StepView::Finished(s.result)),
    }
}

/// A run that acquires the headers below one header root.
pub struct HeaderRun {
    root: String,
    with_archs: bool,
    url: String,
    phase: Phase,
    temp: String,
    holding: bool,
    pending: Vec<String>,
    arch: String,
    source: String,
    failure: Option<AcquireError>,
    result: Result<(), AcquireError>,
}

impl View for HeaderRun {
    type V = HeaderState;

    closed spec fn view(&self) -> HeaderState {
        HeaderState {
            root: self.root@,
            with_archs: self.with_archs,
            url: self.url@,
            phase: self.phase,
            temp: self.temp@,
            holding: self.holding,
            pending: self.pending.deep_view(),
            arch: self.arch@,
            source: self.source@,
            failure: self.failure,
            result: self.result,
        }
    }
}

/// A run that acquires the headers below `dst_dir`, with those of the usual
/// snapshot if `with_archs` is set.
pub fn gen_vmlinux(dst_dir: &str, with_archs: bool) -> (run: HeaderRun)
    ensures
        run@ == start(dst_dir@, with_archs),
{
    HeaderRun::new(dst_dir, with_archs, "https://github.com/libbpf/libbpf-bootstrap")
}

fn one_word(a: &str) -> (words: Vec<String>)
    ensures
        words.deep_view() == seq![a@],
{
    let mut words: Vec<String> = Vec::new();
    words.push(String::from_str(a));
    assert(words.deep_view() =~= seq![a@]);
    words
}

fn add_word(words: &mut Vec<String>, a: &str)
    ensures
        final(words).deep_view() == old(words).deep_view().push(a@),
{
    words.push(String::from_str(a));
    assert(words.deep_view() =~= old(words).deep_view().push(a@));
}

fn locate_tool_action() -> (action: Action)
    ensures
        action@ == locate_tool(),
{
    Action::Run { program: String::from_str("which"), args: one_word("bpftool"), dir: String::new() }
}

fn make_temp_action() -> (action: Action)
    ensures
        action@ == make_temp(),
{
    Action::Run { program: String::from_str("mktemp"), args: one_word("-d"), dir: String::new() }
}

fn clone_action(url: &str, temp: &str) -> (action: Action)
    ensures
        action@ == clone_snapshot(url@, temp@),
{
    let into = join2(temp, "/libbpf-bootstrap");
    let mut args = one_word("clone");
    add_word(&mut args, url);
    add_word(&mut args, into.as_str());
    assert(args.deep_view() =~= seq!["clone"@, url@, snapshot_dir(temp@)]);
    Action::Run { program: String::from_str("git"), args, dir: String::new() }
}

fn list_action(temp: &str) -> (action: Action)
    ensures
        action@ == list_archs(temp@),
{
    let mut args = one_word(".");
    add_word(&mut args, "-mindepth");
    add_word(&mut args, "1");
    add_word(&mut args, "-maxdepth");
    add_word(&mut args, "1");
    add_word(&mut args, "-type");
    add_word(&mut args, "d");
    assert(args.deep_view() =~= seq!["."@, "-mindepth"@, "1"@, "-maxdepth"@, "1"@, "-type"@, "d"@]);
    Action::Run {
        program: String::from_str("find"),
        args,
        dir: join2(temp, "/libbpf-bootstrap/vmlinux"),
    }
}

fn dump_action() -> (action: Action)
    ensures
        action@ == dump_types(),
{
    let mut args = one_word("btf");
    add_word(&mut args, "dump");
    add_word(&mut args, "file");
    add_word(&mut args, "/sys/kernel/btf/vmlinux");
    add_word(&mut args, "format");
    add_word(&mut args, "c");
    assert(args.deep_view() =~= seq!["btf"@, "dump"@, "file"@, btf_path(), "format"@, "c"@]);
    Action::Run { program: String::from_str("bpftool"), args, dir: String::new() }
}

impl HeaderRun {
    /// A run that acquires the headers below `root`, with those of the
    /// snapshot at `url` if `with_archs` is set.
    pub fn new(root: &str, with_archs: bool, url: &str) -> (run: HeaderRun)
        ensures
            run@ == start_from(root@, with_archs, url@),
    {
        let run = HeaderRun {
            root: String::from_str(root),
            with_archs,
            url: String::from_str(url),
            phase: Phase::Start,
            temp: String::new(),
            holding: false,
            pending: Vec::new(),
            arch: String::new(),
            source: String::new(),
            failure: None,
            result: Ok(()),
        };
        assert(run.pending.deep_view() =~= Seq::empty());
        run
    }

    /// Whether the run has ended.
    pub fn is_finished(&self) -> (finished: bool)
        ensures
            finished == (self@.phase is Finished),
    {
        match self.phase {
            Phase::Finished => true,
            _ => false,
        }
    }

    /// The temporary directory that the run holds, if it holds one.
    pub fn held_temp(&self) -> (temp: Option<String>)
        ensures
            temp.deep_view() == (if self@.holding {
                Some(self@.temp)
            } else {
                None
            }),
    {
        if self.holding {
            Some(self.temp.clone())
        } else {
            None
        }
    }

    fn ask(&mut self, phase: Phase, action: Action) -> (step: Step<AcquireError>)
        ensures
            final(self)@ == ask(old(self)@, phase, action@).0,
            step@ == ask(old(self)@, phase, action@).1,
    {
        self.phase = phase;
        Step::Perform(action)
    }

    fn finish(&mut self, result: Result<(), AcquireError>) -> (step: Step<AcquireError>)
        ensures
            final(self)@ == finish(old(self)@, result).0,
            step@ == finish(old(self)@, result).1,
    {
        self.phase = Phase::Finished;
        self.result = result;
        Step::Finished(result)
    }

    fn begin_host(&mut self) -> (step: Step<AcquireError>)
        ensures
            final(self)@ == begin_host(old(self)@).0,
            step@ == begin_host(old(self)@).1,
    {
        let path = join2(self.root.as_str(), "/host");
        self.ask(Phase::HostDirCreated, Action::CreateDirAll { path })
    }

    fn release(&mut self, failure: Option<AcquireError>) -> (step: Step<AcquireError>)
        ensures
            final(self)@ == release(old(self)@, failure).0,
            step@ == release(old(self)@, failure).1,
    {
        self.failure = failure;
        let path = self.temp.clone();
        self.ask(Phase::ReleaseProbed, Action::Probe { path })
    }

    fn released(&mut self) -> (step: Step<AcquireError>)
        ensures
            final(self)@ == released(old(self)@).0,
            step@ == released(old(self)@).1,
    {
        self.holding = false;
        match self.failure {
            Some(error) => self.finish(Err(error)),
            None => self.begin_host(),
        }
    }

    fn next_arch(&mut self) -> (step: Step<AcquireError>)
        ensures
            final(self)@ == next_arch(old(self)@).0,
            step@ == next_arch(old(self)@).1,
    {
        if self.pending.len() == 0 {
            self.release(None)
        } else {
            let ghost before = self.pending.deep_view();
            let arch = self.pending.remove(0);
            assert(self.pending.deep_view() =~= before.skip(1));
            let headers = join2(self.temp.as_str(), "/libbpf-bootstrap/vmlinux");
            let path = join4(headers.as_str(), "/", arch.as_str(), "/vmlinux.h");
            self.arch = arch;
            self.ask(Phase::Resolved, Action::Resolve { path })
        }
    }

    fn place(&mut self) -> (step: Step<AcquireError>)
        ensures
            final(self)@ == place(old(self)@).0,
            step@ == place(old(self)@).1,
    {
        let from = self.source.clone();
        let to = join4(self.root.as_str(), "/", self.arch.as_str(), "/vmlinux_header");
        self.ask(Phase::Moved, Action::Rename { from, to })
    }

    /// Takes the report of the action asked for last and answers with the
    /// next action, or with the result of the run.  The first call begins the
    /// run; its report is not looked at.  Once the run has ended, every call
    /// answers with its result again.
    pub fn step(&mut self, report: Report) -> (step: Step<AcquireError>)
        ensures
            final(self)@ == next(old(self)@, report@).0,
            step@ == next(old(self)@, report@).1,
    {
        match self.phase {
            Phase::Start => {
                let path = self.root.clone();
                self.ask(Phase::RootProbed, Action::Probe { path })
            },
            Phase::RootProbed => {
                if report.success {
                    self.finish(Ok(()))
                } else {
                    let path = String::from_str("/sys/kernel/btf/vmlinux");
                    self.ask(Phase::BtfProbed, Action::Probe { path })
                }
            },
            Phase::BtfProbed => {
                if !report.success {
                    self.finish(Err(AcquireError::BtfUnavailable))
                } else {
                    self.ask(Phase::ToolLocated, locate_tool_action())
                }
            },
            Phase::ToolLocated => {
                if !report.success {
                    self.finish(Err(AcquireError::ToolMissing))
                } else if self.with_archs {
                    self.ask(Phase::TempMade, make_temp_action())
                } else {
                    self.begin_host()
                }
            },
            Phase::HostDirCreated | Phase::Dumped | Phase::Written => self.gen_vmlinux_for_host(
                report,
            ),
            Phase::Finished => Step::Finished(self.result),
            _ => self.gen_vmlinux_for_archs(report),
        }
    }

    /// The part of a run that places the headers of the snapshot: it makes a
    /// temporary directory, clones the snapshot into it, moves the header of
    /// each architecture directory below the header root, and gives the
    /// temporary directory up again, whatever happened.
    fn gen_vmlinux_for_archs(&mut self, report: Report) -> (step: Step<AcquireError>)
        requires
            old(self)@.phase is TempMade || old(self)@.phase is TempProbed || old(self)@.phase
                is Cloned || old(self)@.phase is SnapshotProbed || old(self)@.phase is Listed
                || old(self)@.phase is Resolved || old(self)@.phase is ArchDirProbed || old(
                self,
            )@.phase is ArchDirCreated || old(self)@.phase is Moved || old(self)@.phase
                is ReleaseProbed || old(self)@.phase is Released,
        ensures
            final(self)@ == next(old(self)@, report@).0,
            step@ == next(old(self)@, report@).1,
    {
        match self.phase {
            Phase::TempMade => {
                let name = read_text(&report.output);
                match name {
                    Some(name) => {
                        if report.success {
                            let temp = trim(name.as_str());
                            let path = temp.clone();
                            self.temp = temp;
                            self.ask(Phase::TempProbed, Action::Probe { path })
                        } else {
                            self.finish(Err(AcquireError::ResourceSetup))
                        }
                    },
                    None => self.finish(Err(AcquireError::ResourceSetup)),
                }
            },
            Phase::TempProbed => {
                if !report.success {
                    self.finish(Err(AcquireError::ResourceSetup))
                } else {
                    self.holding = true;
                    let action = clone_action(self.url.as_str(), self.temp.as_str());
                    self.ask(Phase::Cloned, action)
                }
            },
            Phase::Cloned => {
                if !report.success {
                    self.release(Some(AcquireError::FetchFailed))
                } else {
                    let path = join2(self.temp.as_str(), "/libbpf-bootstrap/vmlinux");
                    self.ask(Phase::SnapshotProbed, Action::Probe { path })
                }
            },
            Phase::SnapshotProbed => {
                if !report.success {
                    self.release(Some(AcquireError::LayoutUnexpected))
                } else {
                    let action = list_action(self.temp.as_str());
                    self.ask(Phase::Listed, action)
                }
            },
            Phase::Listed => {
                let listing = read_text(&report.output);
                match listing {
                    Some(listing) => {
                        if report.success {
                            self.pending = split_lines(listing.as_str());
                            self.next_arch()
                        } else {
                            self.release(Some(AcquireError::LayoutUnexpected))
                        }
                    },
                    None => self.release(Some(AcquireError::LayoutUnexpected)),
                }
            },
            Phase::Resolved => {
                let source = read_text(&report.output);
                match source {
                    Some(source) => {
                        if report.success {
                            self.source = source;
                            let path = join3(self.root.as_str(), "/", self.arch.as_str());
                            self.ask(Phase::ArchDirProbed, Action::Probe { path })
                        } else {
                            self.release(Some(AcquireError::LayoutUnexpected))
                        }
                    },
                    None => self.release(Some(AcquireError::LayoutUnexpected)),
                }
            },
            Phase::ArchDirProbed => {
                if report.success {
                    self.place()
                } else {
                    let path = join3(self.root.as_str(), "/", self.arch.as_str());
                    self.ask(Phase::ArchDirCreated, Action::CreateDirAll { path })
                }
            },
            Phase::ArchDirCreated => {
                if !report.success {
                    self.release(Some(AcquireError::FetchFailed))
                } else {
                    self.place()
                }
            },
            Phase::Moved => {
                if !report.success {
                    self.release(Some(AcquireError::FetchFailed))
                } else {
                    self.next_arch()
                }
            },
            Phase::ReleaseProbed => {
                if report.success {
                    let path = self.temp.clone();
                    self.ask(Phase::Released, Action::RemoveTree { path })
                } else {
                    self.released()
                }
            },
            _ => {
                if !report.success {
                    self.finish(Err(AcquireError::ResourceSetup))
                } else {
                    self.released()
                }
            },
        }
    }

    /// The part of a run that writes the host's own header: it makes the
    /// directory `host`, has the kernel's types dumped as C, and writes what
    /// the dump printed, byte for byte, to the header file.
    fn gen_vmlinux_for_host(&mut self, report: Report) -> (step: Step<AcquireError>)
        requires
            old(self)@.phase is HostDirCreated || old(self)@.phase is Dumped || old(self)@.phase
                is Written,
        ensures
            final(self)@ == next(old(self)@, report@).0,
            step@ == next(old(self)@, report@).1,
    {
        if !report.success {
            return self.finish(Err(AcquireError::DumpFailed));
        }
        match self.phase {
            Phase::HostDirCreated => self.ask(Phase::Dumped, dump_action()),
            Phase::Dumped => {
                let path = join3(self.root.as_str(), "/host", "/vmlinux_header");
                self.ask(Phase::Written, Action::Write { path, bytes: report.output })
            },
            _ => self.finish(Ok(())),
        }
    }
}

} // verus!
