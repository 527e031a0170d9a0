//! Building one program: its dependencies are declared, the headers are
//! acquired, the include directory is chosen and the compiler is called.

use crate::arch::{cargo_arch_to_kernel_arch, kernel_arch_of};
use crate::headers::{
    arch_dir, gen_vmlinux, host_dir, next, start, AcquireError, HeaderRun, HeaderState,
};
use crate::protocol::{
    conclude, declare_dependency, rerun_if_changed, verdict, Action, ActionView, Report,
    ReportView, Step, StepView,
};
use crate::target::{BuildBpf, CargoEnv, TargetView};
use crate::text::{join2, join3, read_text, utf8_text};
use vstd::prelude::*;
use vstd::string::*;

verus! {

/// Why a program could not be built.
#[derive(Clone, Copy, Debug, PartialEq, Eq, Structural)]
pub enum BuildError {
    /// The headers could not be acquired.
    Headers(AcquireError),
    /// The compiler failed.
    Compile,
}

/// Where a build stands: each phase but the first and the last names the
/// action whose report the run is waiting for; in `Headers` that is an
/// action of the acquisition of the headers.
#[derive(Clone, Copy, Debug, PartialEq, Eq, Structural)]
pub enum BuildPhase {
    Start,
    SourceDeclared,
    RootDeclared,
    Headers,
    IncludeProbed,
    Compiled,
    Diagnosed,
    Finished,
}

/// The state of a build as the contracts see it.
pub struct BuildState {
    pub target: TargetView,
    /// The kernel's name for the architecture that is built for.
    pub kernel_arch: Seq<char>,
    /// Whether failure is fatal.
    pub strict: bool,
    pub phase: BuildPhase,
    /// The acquisition of the headers.
    pub headers: HeaderState,
    /// The directory that the compiler finds the headers in, once chosen.
    pub include_dir: Seq<char>,
    /// How the build ended, once it has.
    pub result: Result<(), BuildError>,
}

/// The directory with the headers to compile against: that of the
/// architecture where there is one, that of the host otherwise.
pub open spec fn include_dir_of(root: Seq<char>, arch: Seq<char>, exists: bool) -> Seq<char> {
    if exists {
        arch_dir(root, arch)
    } else {
        host_dir(root)
    }
}

/// What a failed compiler's output says, as far as it is text.
pub open spec fn message_of(output: Seq<u8>) -> Seq<char> {
    match utf8_text(output) {
        Some(message) => message,
        None => Seq::empty(),
    }
}

/// What is printed when the compiler has failed: how to run it by hand, with
/// the include directory that was used, and what the compiler said.
pub open spec fn diagnostic(include_dir: Seq<char>, source: Seq<char>, message: Seq<char>) -> Seq<
    char,
> {
    "\nTo build the elf manually:\n$ clang -g -target bpf -D__TARGET_ARCH_x86 -I "@ + include_dir
        + " -c "@ + source
        + "\nWhich can be nice to actually see the compiler errors.\nFailed to build BPF program: "@
        + message
}

/// A build that has not begun.
pub open spec fn build_start(
    target: TargetView,
    cargo_arch: Seq<char>,
    with_archs: bool,
    strict: bool,
) -> BuildState {
    BuildState {
        target,
        kernel_arch: kernel_arch_of(cargo_arch),
        strict,
        phase: BuildPhase::Start,
        headers: start(target.vmlinux_base_dir, with_archs),
        include_dir: Seq::empty(),
        result: Ok(()),
    }
}

/// The build asks for `action` and waits in `phase`.
pub open spec fn build_ask(s: BuildState, phase: BuildPhase, action: ActionView) -> (
    BuildState,
    StepView<BuildError>,
) {
    (BuildState { phase, ..s }, StepView::Perform(action))
}

/// The build ends with `result`.
pub open spec fn build_end(s: BuildState, result: Result<(), BuildError>) -> (
    BuildState,
    StepView<BuildError>,
) {
    (BuildState { phase: BuildPhase::Finished, result, ..s }, verdict(s.strict, result))
}

/// The build hands on what the acquisition of the headers answered: an
/// action is passed through, success leads on to the choice of the include
/// directory, and failure ends the build.
pub open spec fn relay(s: BuildState, answer: (HeaderState, StepView<AcquireError>)) -> (
    BuildState,
    StepView<BuildError>,
) {
    let s = BuildState { headers: answer.0, ..s };
    match answer.1 {
        StepView::Perform(action) => build_ask(s, BuildPhase::Headers, action),
        StepView::Finished(Ok(_)) => build_ask(
            s,
            BuildPhase::IncludeProbed,
            ActionView::Probe { path: arch_dir(s.target.vmlinux_base_dir, s.kernel_arch) },
        ),
        StepView::Finished(Err(error)) => build_end(s, Err(BuildError::Headers(error))),
        StepView::Aborted(error) => build_end(s, Err(BuildError::Headers(error))),
    }
}

/// The transition: the state after `report` has come in, and what the build
/// answers to it.  In `BuildPhase::Start` the report is not looked at, nor
/// are the reports of what was printed.
pub open spec fn build_next(s: BuildState, report: ReportView) -> (
    BuildState,
    StepView<BuildError>,
) {
    match s.phase {
        BuildPhase::Start => build_ask(
            s,
            BuildPhase::SourceDeclared,
            rerun_if_changed(s.target.bpf_prog_src_file),
        ),
        BuildPhase::SourceDeclared => build_ask(
            s,
            BuildPhase::RootDeclared,
            rerun_if_changed(s.target.vmlinux_base_dir),
        ),
        BuildPhase::RootDeclared => relay(s, next(s.headers, report)),
        BuildPhase::Headers => relay(s, next(s.headers, report)),
        BuildPhase::IncludeProbed => {
            let dir = include_dir_of(s.target.vmlinux_base_dir, s.kernel_arch, report.success);
            build_ask(
                BuildState { include_dir: dir, ..s },
                BuildPhase::Compiled,
                ActionView::Compile {
                    source: s.target.bpf_prog_src_file,
                    include_dir: dir,
                    binding: s.target.skel_dst_file,
                },
            )
        },
        BuildPhase::Compiled => if report.success {
            build_end(s, Ok(()))
        } else {
            build_ask(
                s,
                BuildPhase::Diagnosed,
                ActionView::Print {
                    line: diagnostic(
                        s.include_dir,
                        s.target.bpf_prog_src_file,
                        message_of(report.output),
                    ),
                },
            )
        },
        BuildPhase::Diagnosed => build_end(s, Err(BuildError::Compile)),
        BuildPhase::Finished => (s, verdict(s.strict, s.result)),
    }
}

/// The directory with the headers to compile against, given whether the
/// header root has a directory for the architecture.
pub fn vmlinux_include_dir(vmlinux_hdr_dir: &str, arch: &str, exists: bool) -> (dir: String)
    ensures
        dir@ == include_dir_of(vmlinux_hdr_dir@, arch@, exists),
{
    if exists {
        join3(vmlinux_hdr_dir, "/", arch)
    } else {
        join2(vmlinux_hdr_dir, "/host")
    }
}

/// What is printed when the compiler has failed with `output`.
pub fn gen_skel_diagnostic(include_dir: &str, source: &str, output: &Vec<u8>) -> (text: String)
    ensures
        text@ == diagnostic(include_dir@, source@, message_of(output@)),
{
    let mut text = String::from_str(
        "\nTo build the elf manually:\n$ clang -g -target bpf -D__TARGET_ARCH_x86 -I ",
    );
    text.append(include_dir);
    text.append(" -c ");
    text.append(source);
    text.append(
        "\nWhich can be nice to actually see the compiler errors.\nFailed to build BPF program: ",
    );
    match read_text(output) {
        Some(message) => {
            text.append(message.as_str());
        },
        None => {
            assert(text@ + Seq::<char>::empty() =~= text@);
        },
    }
    text
}

/// A run that builds one program.
pub struct BuildRun {
    source: String,
    root: String,
    binding: String,
    kernel_arch: String,
    strict: bool,
    phase: BuildPhase,
    headers: HeaderRun,
    include_dir: String,
    result: Result<(), BuildError>,
}

impl View for BuildRun {
    type V = BuildState;

    closed spec fn view(&self) -> BuildState {
        BuildState {
            target: TargetView {
                bpf_prog_src_file: self.source@,
                vmlinux_base_dir: self.root@,
                skel_dst_file: self.binding@,
            },
            kernel_arch: self.kernel_arch@,
            strict: self.strict,
            phase: self.phase,
            headers: self.headers@,
            include_dir: self.include_dir@,
            result: self.result,
        }
    }
}

impl BuildRun {
    /// A run that builds `target` for the build tool's architecture
    /// `cargo_arch`.
    pub fn new(target: &BuildBpf, cargo_arch: &str, with_archs: bool, strict: bool) -> (run:
        BuildRun)
        ensures
            run@ == build_start(target@, cargo_arch@, with_archs, strict),
    {
        BuildRun {
            source: String::from_str(target.source()),
            root: String::from_str(target.header_root()),
            binding: String::from_str(target.binding()),
            kernel_arch: String::from_str(cargo_arch_to_kernel_arch(cargo_arch)),
            strict,
            phase: BuildPhase::Start,
            headers: gen_vmlinux(target.header_root(), with_archs),
            include_dir: String::new(),
            result: Ok(()),
        }
    }

    fn ask(&mut self, phase: BuildPhase, action: Action) -> (step: Step<BuildError>)
        ensures
            final(self)@ == build_ask(old(self)@, phase, action@).0,
            step@ == build_ask(old(self)@, phase, action@).1,
    {
        self.phase = phase;
        Step::Perform(action)
    }

    fn end(&mut self, result: Result<(), BuildError>) -> (step: Step<BuildError>)
        ensures
            final(self)@ == build_end(old(self)@, result).0,
            step@ == build_end(old(self)@, result).1,
    {
        self.phase = BuildPhase::Finished;
        self.result = result;
        conclude(self.strict, result)
    }

    /// Takes the report of the action asked for last and answers with the
    /// next action, or with the result of the build.  The first call begins
    /// the build; its report is not looked at.  Once the build has ended,
    /// every call answers as the call that ended it.
    pub fn step(&mut self, report: Report) -> (step: Step<BuildError>)
        ensures
            final(self)@ == build_next(old(self)@, report@).0,
            step@ == build_next(old(self)@, report@).1,
    {
        match self.phase {
            BuildPhase::Start => {
                let action = declare_dependency(self.source.as_str());
                self.ask(BuildPhase::SourceDeclared, action)
            },
            BuildPhase::SourceDeclared => {
                let action = declare_dependency(self.root.as_str());
                self.ask(BuildPhase::RootDeclared, action)
            },
            BuildPhase::RootDeclared | BuildPhase::Headers => {
                let answer = self.headers.step(report);
                match answer {
                    Step::Perform(action) => self.ask(BuildPhase::Headers, action),
                    Step::Finished(Ok(_)) => {
                        let path = join3(self.root.as_str(), "/", self.kernel_arch.as_str());
                        self.ask(BuildPhase::IncludeProbed, Action::Probe { path })
                    },
                    Step::Finished(Err(error)) => self.end(Err(BuildError::Headers(error))),
                    Step::Aborted(error) => self.end(Err(BuildError::Headers(error))),
                }
            },
            BuildPhase::IncludeProbed => {
                let dir = vmlinux_include_dir(
                    self.root.as_str(),
                    self.kernel_arch.as_str(),
                    report.success,
                );
                let action = Action::Compile {
                    source: self.source.clone(),
                    include_dir: dir.clone(),
                    binding: self.binding.clone(),
                };
                self.include_dir = dir;
                self.ask(BuildPhase::Compiled, action)
            },
            BuildPhase::Compiled => {
                if report.success {
                    self.end(Ok(()))
                } else {
                    let line = gen_skel_diagnostic(
                        self.include_dir.as_str(),
                        self.source.as_str(),
                        &report.output,
                    );
                    self.ask(BuildPhase::Diagnosed, Action::Print { line })
                }
            },
            BuildPhase::Diagnosed => self.end(Err(BuildError::Compile)),
            BuildPhase::Finished => conclude(self.strict, self.result),
        }
    }
}

impl BuildBpf {
    /// A run that builds the target in the build that `env` describes.  A
    /// failure ends the run with its error.
    pub fn try_build(&self, env: &CargoEnv) -> (run: BuildRun)
        ensures
            run@ == build_start(self@, env.target_arch@, env.vmlinux_archs, false),
    {
        BuildRun::new(self, env.target_arch.as_str(), env.vmlinux_archs, false)
    }

    /// A run that builds the target in the build that `env` describes.  A
    /// failure is fatal: the run ends by asking for the build to be stopped.
    pub fn must_build(&self, env: &CargoEnv) -> (run: BuildRun)
        ensures
            run@ == build_start(self@, env.target_arch@, env.vmlinux_archs, true),
    {
        BuildRun::new(self, env.target_arch.as_str(), env.vmlinux_archs, true)
    }
}

} // verus!
