//! What holds of every run, whatever the driver reports.

use crate::arch::kernel_arch_of;
use crate::builder::{
    build_next, build_start, diagnostic, include_dir_of, message_of, BuildError, BuildPhase,
    BuildState,
};
use crate::headers::{
    arch_dir, btf_path, next, start_from, AcquireError, HeaderState, Phase,
};
use crate::protocol::{rerun_if_changed, verdict, ActionView, ReportView, StepView};
use crate::publish::{
    link_decision, publish_next, publish_start, LinkAction, PublishError, PublishPhase,
    PublishState,
};
use crate::target::{is_prog_source, prog_name_of, prog_name_of_path, target_of, TargetView};
use crate::text::{
    blank_prefix, blank_suffix, is_white_space, lemma_position, lemma_position_unique,
    lemma_tail_len_unique, nonempty_lines, position, prefix_before, suffix_after, trimmed,
    without_cr,
};
use vstd::prelude::*;

verus! {

/// The five architectures of the table map to their kernel names, and every
/// other name maps to `host`: the mapping has a value for every name.
pub proof fn lemma_kernel_arch_table(arch: Seq<char>)
    ensures
        kernel_arch_of("aarch64"@) == "arm64"@,
        kernel_arch_of("loongarch64"@) == "loongarch"@,
        kernel_arch_of("powerpc64"@) == "powerpc"@,
        kernel_arch_of("riscv64"@) == "riscv"@,
        kernel_arch_of("x86_64"@) == "x86"@,
        arch != "aarch64"@ && arch != "loongarch64"@ && arch != "powerpc64"@ && arch
            != "riscv64"@ && arch != "x86_64"@ ==> kernel_arch_of(arch) == "host"@,
{
    reveal_strlit("aarch64");
    reveal_strlit("loongarch64");
    reveal_strlit("powerpc64");
    reveal_strlit("riscv64");
    reveal_strlit("x86_64");
    assert("aarch64"@.len() == 7);
    assert("loongarch64"@.len() == 11);
    assert("powerpc64"@.len() == 9);
    assert("riscv64"@.len() == 7 && "riscv64"@[0] == 'r');
    assert("x86_64"@.len() == 6);
    assert("aarch64"@[0] == 'a');
}

/// For all contents `a` of the binding and `b` of the alias: the alias is
/// linked anew whenever the two differ or the alias cannot be read, and is
/// kept, without error, whenever they are the same.  A binding that cannot
/// be read is an error, whatever the alias holds.
pub proof fn lemma_link_decision(a: Seq<u8>, b: Seq<u8>, dest: Option<Seq<u8>>)
    ensures
        a != b ==> link_decision(Some(a), Some(b)) == Ok::<LinkAction, PublishError>(
            LinkAction::Replace,
        ),
        link_decision(Some(a), None) == Ok::<LinkAction, PublishError>(LinkAction::Replace),
        link_decision(Some(a), Some(a)) == Ok::<LinkAction, PublishError>(LinkAction::Keep),
        link_decision(None, dest) == Err::<LinkAction, PublishError>(PublishError::SourceMissing),
{
}

/// A publishing run declares the alias, reads the binding and the alias,
/// and then, where the alias cannot be read or differs from the binding,
/// removes the alias and links it to the binding; a failure to remove is
/// passed over.  Where both hold the same bytes the run ends at once, with
/// success, and has changed nothing on disk.
pub proof fn lemma_publish_run(
    from: Seq<char>,
    to: Seq<char>,
    strict: bool,
    begin: ReportView,
    declared: ReportView,
    source: ReportView,
    dest: ReportView,
    removed: ReportView,
    linked: ReportView,
)
    requires
        source.success,
    ensures
        ({
            let s0 = publish_start(from, to, strict);
            let (s1, a1) = publish_next(s0, begin);
            let (s2, a2) = publish_next(s1, declared);
            let (s3, a3) = publish_next(s2, source);
            let (s4, a4) = publish_next(s3, dest);
            let (s5, a5) = publish_next(s4, removed);
            let (s6, a6) = publish_next(s5, linked);
            &&& a1 == StepView::<PublishError>::Perform(rerun_if_changed(to))
            &&& a2 == StepView::<PublishError>::Perform(ActionView::Read { path: from })
            &&& a3 == StepView::<PublishError>::Perform(ActionView::Read { path: to })
            &&& dest.success && dest.output == source.output ==> a4 == StepView::<
                PublishError,
            >::Finished(Ok(()))
            &&& !dest.success || dest.output != source.output ==> {
                &&& a4 == StepView::<PublishError>::Perform(ActionView::RemoveFile { path: to })
                &&& a5 == StepView::<PublishError>::Perform(
                    ActionView::Symlink { file: from, link: to },
                )
                &&& a6 == verdict(
                    strict,
                    if linked.success {
                        Ok(())
                    } else {
                        Err(PublishError::LinkFailed)
                    },
                )
            }
            &&& !a1->Perform_0.mutates() && !a2->Perform_0.mutates() && !a3->Perform_0.mutates()
        }),
{
}

/// A publishing run whose binding cannot be read ends with `SourceMissing`
/// before it has looked at the alias.
pub proof fn lemma_publish_without_source(
    from: Seq<char>,
    to: Seq<char>,
    strict: bool,
    begin: ReportView,
    declared: ReportView,
    source: ReportView,
)
    requires
        !source.success,
    ensures
        ({
            let s0 = publish_start(from, to, strict);
            let (s1, a1) = publish_next(s0, begin);
            let (s2, a2) = publish_next(s1, declared);
            let (s3, a3) = publish_next(s2, source);
            a3 == verdict::<PublishError>(strict, Err(PublishError::SourceMissing))
        }),
{
}

/// A header root that exists is left alone: the run looks whether the root
/// is there and, told that it is, ends with success.  It has started no
/// program and changed nothing on disk.
pub proof fn lemma_existing_root_is_left_alone(
    root: Seq<char>,
    with_archs: bool,
    url: Seq<char>,
    begin: ReportView,
    found: ReportView,
    later: ReportView,
)
    requires
        found.success,
    ensures
        ({
            let s0 = start_from(root, with_archs, url);
            let (s1, a1) = next(s0, begin);
            let (s2, a2) = next(s1, found);
            let (s3, a3) = next(s2, later);
            &&& a1 == StepView::<AcquireError>::Perform(ActionView::Probe { path: root })
            &&& !a1->Perform_0.spawns() && !a1->Perform_0.mutates()
            &&& a2 == StepView::<AcquireError>::Finished(Ok(()))
            &&& a3 == a2 && s3 == s2
        }),
{
}

/// Where the header root is missing and the host does not expose its
/// kernel's types, the run ends with `BtfUnavailable`.  All it has done is to
/// look for the root and for the type information: nothing was fetched and
/// no tool was called.
pub proof fn lemma_missing_introspection_stops_the_run(
    root: Seq<char>,
    with_archs: bool,
    url: Seq<char>,
    begin: ReportView,
    root_probe: ReportView,
    btf_probe: ReportView,
)
    requires
        !root_probe.success,
        !btf_probe.success,
    ensures
        ({
            let s0 = start_from(root, with_archs, url);
            let (s1, a1) = next(s0, begin);
            let (s2, a2) = next(s1, root_probe);
            let (s3, a3) = next(s2, btf_probe);
            &&& a1 == StepView::<AcquireError>::Perform(ActionView::Probe { path: root })
            &&& a2 == StepView::<AcquireError>::Perform(ActionView::Probe { path: btf_path() })
            &&& a3 == StepView::<AcquireError>::Finished(Err(AcquireError::BtfUnavailable))
            &&& !a1->Perform_0.spawns() && !a1->Perform_0.mutates()
            &&& !a2->Perform_0.spawns() && !a2->Perform_0.mutates()
        }),
{
}

/// The state of a run after it has taken `reports`, one after the other.
pub open spec fn after(s: HeaderState, reports: Seq<ReportView>) -> HeaderState
    decreases reports.len(),
{
    if reports.len() == 0 {
        s
    } else {
        next(after(s, reports.drop_last()), reports.last()).0
    }
}

/// A run accounts for its temporary directory: it holds none before it has
/// made one and none once it has turned to the host's header, and where it
/// has ended holding one, it has ended with `ResourceSetup`.
pub open spec fn temp_accounted(s: HeaderState) -> bool {
    match s.phase {
        Phase::Start
        | Phase::RootProbed
        | Phase::BtfProbed
        | Phase::ToolLocated
        | Phase::TempMade
        | Phase::TempProbed
        | Phase::HostDirCreated
        | Phase::Dumped
        | Phase::Written => !s.holding,
        Phase::Finished => s.holding ==> s.result == Err::<(), AcquireError>(
            AcquireError::ResourceSetup,
        ),
        _ => true,
    }
}

/// One report keeps the account of the temporary directory.  The run takes
/// the directory up only when it is told that the directory it made exists,
/// and gives it up only when it is told that the directory is gone or that
/// it has been removed; in between, the directory keeps its name.
pub proof fn lemma_temp_step(s: HeaderState, report: ReportView)
    requires
        temp_accounted(s),
    ensures
        temp_accounted(next(s, report).0),
        !s.holding && next(s, report).0.holding ==> s.phase is TempProbed && report.success,
        s.holding && !next(s, report).0.holding ==> (s.phase is ReleaseProbed && !report.success)
            || (s.phase is Released && report.success),
        s.holding ==> next(s, report).0.temp == s.temp,
        s.phase is ReleaseProbed && report.success ==> next(s, report).1 == StepView::<
            AcquireError,
        >::Perform(ActionView::RemoveTree { path: s.temp }),
{
}

/// The temporary directory does not outlive the run: whatever is reported,
/// a run that has ended holds no temporary directory, unless it has ended
/// with `ResourceSetup` because the directory could not be removed.
pub proof fn lemma_temp_is_released(
    root: Seq<char>,
    with_archs: bool,
    url: Seq<char>,
    reports: Seq<ReportView>,
)
    ensures
        temp_accounted(after(start_from(root, with_archs, url), reports)),
        ({
            let end = after(start_from(root, with_archs, url), reports);
            end.phase is Finished && end.result != Err::<(), AcquireError>(
                AcquireError::ResourceSetup,
            ) ==> !end.holding
        }),
    decreases reports.len(),
{
    if reports.len() > 0 {
        lemma_temp_is_released(root, with_archs, url, reports.drop_last());
        lemma_temp_step(after(start_from(root, with_archs, url), reports.drop_last()), reports.last());
    }
}

/// How far a phase is from the end of a run, the architectures of the
/// snapshot left aside.
pub open spec fn distance(phase: Phase) -> nat {
    match phase {
        Phase::Start => 15,
        Phase::RootProbed => 14,
        Phase::BtfProbed => 13,
        Phase::ToolLocated => 12,
        Phase::TempMade => 11,
        Phase::TempProbed => 10,
        Phase::Cloned => 9,
        Phase::SnapshotProbed => 8,
        Phase::Listed => 7,
        Phase::Resolved | Phase::ArchDirProbed | Phase::ArchDirCreated | Phase::Moved => 6,
        Phase::ReleaseProbed => 5,
        Phase::Released => 4,
        Phase::HostDirCreated => 3,
        Phase::Dumped => 2,
        Phase::Written => 1,
        Phase::Finished => 0,
    }
}

/// How far a phase is from the end of the work on one architecture.
pub open spec fn arch_distance(phase: Phase) -> nat {
    match phase {
        Phase::Resolved => 3,
        Phase::ArchDirProbed => 2,
        Phase::ArchDirCreated => 1,
        _ => 0,
    }
}

/// Whether state `t` is nearer to the end of a run than state `s`: by its
/// phase, then by the architectures left, then by the work left on the
/// architecture in hand.
pub open spec fn nearer(t: HeaderState, s: HeaderState) -> bool {
    ||| distance(t.phase) < distance(s.phase)
    ||| distance(t.phase) == distance(s.phase) && t.pending.len() < s.pending.len()
    ||| distance(t.phase) == distance(s.phase) && t.pending.len() == s.pending.len()
        && arch_distance(t.phase) < arch_distance(s.phase)
}

/// Every report takes a run that has not ended nearer to its end, and the
/// run answers with its result exactly when it has ended: no run goes on for
/// ever, whatever is reported.
pub proof fn lemma_run_advances(s: HeaderState, report: ReportView)
    ensures
        !(s.phase is Finished) ==> nearer(next(s, report).0, s),
        next(s, report).1.is_final() <==> next(s, report).0.phase is Finished,
        s.phase is Finished ==> next(s, report).0 == s,
{
}

/// The program name of a target is the program that the target was made
/// for: for the name of a source file, taken from a directory, the target
/// made for the program of that name gives that program's name back.
pub proof fn lemma_prog_name_round_trip(
    manifest_dir: Seq<char>,
    out_dir: Seq<char>,
    name: Seq<char>,
)
    requires
        is_prog_source(name),
        !name.contains('/'),
    ensures
        prog_name_of_path(target_of(manifest_dir, out_dir, prog_name_of(name)).bpf_prog_src_file)
            == prog_name_of(name),
{
    reveal_strlit("/src/bpf/");
    reveal_strlit(".bpf.c");
    let prog = prog_name_of(name);
    let file = prog + ".bpf.c"@;
    let path = manifest_dir + "/src/bpf/"@ + prog + ".bpf.c"@;
    lemma_position(name, '.');
    assert forall|k: int| 0 <= k < prog.len() implies prog[k] != '/' && prog[k] != '.' by {
        assert(prog[k] == name[k]);
        assert(name.contains(name[k]));
    }
    assert forall|k: int| path.len() - file.len() <= k < path.len() implies path[k] != '/' by {
        let j = k - (path.len() - file.len());
        assert(path[k] == file[j]);
        if j < prog.len() {
            assert(file[j] == prog[j]);
        } else {
            assert(file[j] == ".bpf.c"@[j - prog.len()]);
        }
    }
    assert(path[path.len() - file.len() - 1] == "/src/bpf/"@[8]);
    lemma_tail_len_unique(path, '/', file.len() as int);
    assert(suffix_after(path, '/') =~= file);
    assert(file[prog.len() as int] == ".bpf.c"@[0]);
    assert forall|k: int| 0 <= k < prog.len() implies file[k] != '.' by {
        assert(file[k] == prog[k]);
    }
    lemma_position_unique(file, '.', prog.len() as int);
    assert(prefix_before(file, '.') =~= prog);
}

/// A build whose header root exists declares what it depends on, looks for
/// the root and for the directory of the architecture, and calls the
/// compiler: with the directory of the architecture where that exists, with
/// the directory of the host otherwise.  The compiler is called however
/// often the build is run again, and before it is called nothing has been
/// started or changed on disk.
pub proof fn lemma_build_with_cached_headers(
    target: TargetView,
    cargo_arch: Seq<char>,
    with_archs: bool,
    strict: bool,
    begin: ReportView,
    source_declared: ReportView,
    root_declared: ReportView,
    root_found: ReportView,
    arch_dir_probed: ReportView,
    compiled: ReportView,
)
    requires
        root_found.success,
        compiled.success,
    ensures
        ({
            let root = target.vmlinux_base_dir;
            let arch = kernel_arch_of(cargo_arch);
            let s0 = build_start(target, cargo_arch, with_archs, strict);
            let (s1, a1) = build_next(s0, begin);
            let (s2, a2) = build_next(s1, source_declared);
            let (s3, a3) = build_next(s2, root_declared);
            let (s4, a4) = build_next(s3, root_found);
            let (s5, a5) = build_next(s4, arch_dir_probed);
            let (s6, a6) = build_next(s5, compiled);
            &&& a1 == StepView::<BuildError>::Perform(rerun_if_changed(target.bpf_prog_src_file))
            &&& a2 == StepView::<BuildError>::Perform(rerun_if_changed(root))
            &&& a3 == StepView::<BuildError>::Perform(ActionView::Probe { path: root })
            &&& a4 == StepView::<BuildError>::Perform(
                ActionView::Probe { path: arch_dir(root, arch) },
            )
            &&& a5 == StepView::<BuildError>::Perform(
                ActionView::Compile {
                    source: target.bpf_prog_src_file,
                    include_dir: include_dir_of(root, arch, arch_dir_probed.success),
                    binding: target.skel_dst_file,
                },
            )
            &&& a6 == StepView::<BuildError>::Finished(Ok(()))
            &&& !a1->Perform_0.mutates() && !a2->Perform_0.mutates() && !a3->Perform_0.mutates()
                && !a4->Perform_0.mutates()
            &&& !a1->Perform_0.spawns() && !a2->Perform_0.spawns() && !a3->Perform_0.spawns()
                && !a4->Perform_0.spawns()
        }),
{
}

/// A build passes on what the acquisition of the headers asks for, and
/// ends with `Headers` and the error of the acquisition where that fails.
pub proof fn lemma_build_follows_headers(s: BuildState, report: ReportView)
    requires
        s.phase is Headers || s.phase is RootDeclared,
    ensures
        build_next(s, report).0.headers == next(s.headers, report).0,
        next(s.headers, report).1 matches StepView::Perform(action) ==> build_next(s, report).1
            == StepView::<BuildError>::Perform(action),
        next(s.headers, report).1 matches StepView::Finished(Err(error)) ==> build_next(
            s,
            report,
        ).1 == verdict(s.strict, Err(BuildError::Headers(error))),
        next(s.headers, report).1 matches StepView::Finished(Ok(_)) ==> build_next(s, report).1
            == StepView::<BuildError>::Perform(
            ActionView::Probe { path: arch_dir(s.target.vmlinux_base_dir, s.kernel_arch) },
        ),
{
}

/// When the compiler fails, the build prints how to run the compiler by
/// hand, with the include directory that was used, and ends with `Compile`.
pub proof fn lemma_compile_failure_is_explained(
    s: BuildState,
    compiled: ReportView,
    printed: ReportView,
)
    requires
        s.phase is Compiled,
        !compiled.success,
    ensures
        ({
            let (s1, a1) = build_next(s, compiled);
            let (s2, a2) = build_next(s1, printed);
            &&& a1 == StepView::<BuildError>::Perform(
                ActionView::Print {
                    line: diagnostic(
                        s.include_dir,
                        s.target.bpf_prog_src_file,
                        message_of(compiled.output),
                    ),
                },
            )
            &&& a2 == verdict::<BuildError>(s.strict, Err(BuildError::Compile))
        }),
{
}

/// How a run ends depends on its owner's choice alone: a strict run never
/// ends with an error as its result, it stops the build; a run that is not
/// strict never stops the build.  Success ends both in the same way.
pub proof fn lemma_strictness(build: BuildState, publish: PublishState, report: ReportView)
    ensures
        build_next(build, report).0.strict == build.strict,
        publish_next(publish, report).0.strict == publish.strict,
        build.strict ==> !(build_next(build, report).1 matches StepView::Finished(Err(_))),
        !build.strict ==> !(build_next(build, report).1 is Aborted),
        publish.strict ==> !(publish_next(publish, report).1 matches StepView::Finished(Err(_))),
        !publish.strict ==> !(publish_next(publish, report).1 is Aborted),
{
}

/// Whether `path` lies in or below the directory `dir`, as far as its
/// spelling tells.
pub open spec fn below(path: Seq<char>, dir: Seq<char>) -> bool {
    dir.len() <= path.len() && path.take(dir.len() as int) == dir
}

/// What is appended to a path stays below the directories that the path is
/// below.
pub proof fn lemma_below(path: Seq<char>, dir: Seq<char>, rest: Seq<char>)
    requires
        below(path, dir),
    ensures
        below(path + rest, dir),
{
    assert((path + rest).take(dir.len() as int) =~= path.take(dir.len() as int));
}

/// Every path is below itself.
pub proof fn lemma_below_itself(path: Seq<char>)
    ensures
        below(path, path),
{
    assert(path.take(path.len() as int) =~= path);
}

/// Whether an action of a run that acquires headers keeps to the header
/// root `root` and the temporary directory `temp`: it creates and writes
/// below the root only, moves files to places below the root only, and
/// removes nothing but the temporary directory.
pub open spec fn confined(action: ActionView, root: Seq<char>, temp: Seq<char>) -> bool {
    match action {
        ActionView::CreateDirAll { path } => below(path, root),
        ActionView::Write { path, .. } => below(path, root),
        ActionView::Rename { to, .. } => below(to, root),
        ActionView::RemoveTree { path } => path == temp,
        ActionView::RemoveFile { .. } => false,
        ActionView::Symlink { .. } => false,
        ActionView::Compile { .. } => false,
        _ => true,
    }
}

/// A run that acquires headers keeps to its directories, whatever is
/// reported: what it creates, writes and moves into place lies below the
/// header root, and the one thing it removes is its temporary directory.
pub proof fn lemma_run_is_confined(s: HeaderState, report: ReportView)
    ensures
        next(s, report).1 matches StepView::Perform(action) ==> confined(
            action,
            s.root,
            next(s, report).0.temp,
        ),
        next(s, report).0.root == s.root,
{
    let root = s.root;
    lemma_below_itself(root);
    lemma_below(root, root, "/host"@);
    lemma_below(root + "/host"@, root, "/vmlinux_header"@);
    lemma_below(root, root, "/"@);
    lemma_below(root + "/"@, root, s.arch);
    lemma_below(root + "/"@ + s.arch, root, "/vmlinux_header"@);
}

/// The state of a build after it has taken `reports`, one after the other.
pub open spec fn build_after(s: BuildState, reports: Seq<ReportView>) -> BuildState
    decreases reports.len(),
{
    if reports.len() == 0 {
        s
    } else {
        build_next(build_after(s, reports.drop_last()), reports.last()).0
    }
}

/// A build keeps its acquisition of headers in step: the acquisition has
/// not begun before the build has declared what it depends on, it has ended
/// with success once the build has gone on to the compiler, and it accounts
/// for its temporary directory throughout.
pub open spec fn build_in_step(s: BuildState) -> bool {
    &&& temp_accounted(s.headers)
    &&& match s.phase {
        BuildPhase::Start | BuildPhase::SourceDeclared | BuildPhase::RootDeclared => s.headers.phase
            is Start,
        BuildPhase::Headers => true,
        BuildPhase::IncludeProbed | BuildPhase::Compiled | BuildPhase::Diagnosed => {
            s.headers.phase is Finished && s.headers.result is Ok
        },
        BuildPhase::Finished => s.headers.holding ==> s.result == Err::<(), BuildError>(
            BuildError::Headers(AcquireError::ResourceSetup),
        ),
    }
}

/// The temporary directory does not outlive a build either: whatever is
/// reported, a build that has ended holds no temporary directory, unless it
/// has ended because the directory could not be removed.
pub proof fn lemma_build_releases_temp(
    target: TargetView,
    cargo_arch: Seq<char>,
    with_archs: bool,
    strict: bool,
    reports: Seq<ReportView>,
)
    ensures
        build_in_step(build_after(build_start(target, cargo_arch, with_archs, strict), reports)),
        ({
            let end = build_after(build_start(target, cargo_arch, with_archs, strict), reports);
            end.phase is Finished && end.result != Err::<(), BuildError>(
                BuildError::Headers(AcquireError::ResourceSetup),
            ) ==> !end.headers.holding
        }),
    decreases reports.len(),
{
    if reports.len() > 0 {
        let start = build_start(target, cargo_arch, with_archs, strict);
        lemma_build_releases_temp(target, cargo_arch, with_archs, strict, reports.drop_last());
        let before = build_after(start, reports.drop_last());
        lemma_temp_step(before.headers, reports.last());
    }
}

/// How far a phase is from the end of a build.
pub open spec fn build_distance(phase: BuildPhase) -> nat {
    match phase {
        BuildPhase::Start => 7,
        BuildPhase::SourceDeclared => 6,
        BuildPhase::RootDeclared => 5,
        BuildPhase::Headers => 4,
        BuildPhase::IncludeProbed => 3,
        BuildPhase::Compiled => 2,
        BuildPhase::Diagnosed => 1,
        BuildPhase::Finished => 0,
    }
}

/// How far a phase is from the end of a publishing run.
pub open spec fn publish_distance(phase: PublishPhase) -> nat {
    match phase {
        PublishPhase::Start => 6,
        PublishPhase::Declared => 5,
        PublishPhase::SourceRead => 4,
        PublishPhase::DestRead => 3,
        PublishPhase::Removed => 2,
        PublishPhase::Linked => 1,
        PublishPhase::Finished => 0,
    }
}

/// Every report takes a build that has not ended nearer to its end: by its
/// own phase or, while the headers are acquired, by the state of the
/// acquisition.  The build answers with its end exactly when it has ended.
pub proof fn lemma_build_advances(s: BuildState, report: ReportView)
    ensures
        !(s.phase is Finished) ==> {
            let t = build_next(s, report).0;
            ||| build_distance(t.phase) < build_distance(s.phase)
            ||| build_distance(t.phase) == build_distance(s.phase) && nearer(t.headers, s.headers)
        },
        build_next(s, report).1.is_final() <==> build_next(s, report).0.phase is Finished,
        s.phase is Finished ==> build_next(s, report).0 == s,
{
    lemma_run_advances(s.headers, report);
}

/// Every report takes a publishing run that has not ended nearer to its
/// end, and the run answers with its end exactly when it has ended.
pub proof fn lemma_publish_advances(s: PublishState, report: ReportView)
    ensures
        !(s.phase is Finished) ==> publish_distance(publish_next(s, report).0.phase)
            < publish_distance(s.phase),
        publish_next(s, report).1.is_final() <==> publish_next(s, report).0.phase is Finished,
        s.phase is Finished ==> publish_next(s, report).0 == s,
{
}

/// Every line that is split off a text holds a character and no line feed.
pub proof fn lemma_lines_are_lines(s: Seq<char>)
    ensures
        forall|i: int|
            0 <= i < nonempty_lines(s).len() ==> (#[trigger] nonempty_lines(s)[i]).len() > 0
                && !nonempty_lines(s)[i].contains('\n'),
    decreases s.len(),
{
    if s.len() > 0 {
        lemma_position(s, '\n');
        let end = position(s, '\n');
        if end < s.len() {
            let line = without_cr(s.take(end));
            let rest = nonempty_lines(s.skip(end + 1));
            lemma_lines_are_lines(s.skip(end + 1));
            assert forall|k: int| 0 <= k < line.len() implies line[k] != '\n' by {
                assert(line[k] == s[k]);
            }
            assert forall|i: int| 0 <= i < nonempty_lines(s).len() implies (
            #[trigger] nonempty_lines(s)[i]).len() > 0 && !nonempty_lines(s)[i].contains(
                '\n',
            ) by {
                if line.len() > 0 {
                    if i == 0 {
                        assert(nonempty_lines(s)[0] == line);
                    } else {
                        assert(nonempty_lines(s)[i] == rest[i - 1]);
                    }
                } else {
                    assert(nonempty_lines(s)[i] == rest[i]);
                }
            }
        } else {
            assert(nonempty_lines(s)[0] == s);
        }
    }
}

proof fn lemma_blank_prefix_ends(s: Seq<char>)
    ensures
        0 <= blank_prefix(s) <= s.len(),
        blank_prefix(s) < s.len() ==> !is_white_space(s[blank_prefix(s)]),
    decreases s.len(),
{
    if s.len() > 0 && is_white_space(s[0]) {
        lemma_blank_prefix_ends(s.skip(1));
    }
}

proof fn lemma_blank_suffix_ends(s: Seq<char>)
    ensures
        0 <= blank_suffix(s) <= s.len(),
        blank_suffix(s) < s.len() ==> !is_white_space(s[s.len() - blank_suffix(s) - 1]),
    decreases s.len(),
{
    if s.len() > 0 && is_white_space(s.last()) {
        lemma_blank_suffix_ends(s.drop_last());
    }
}

/// A trimmed text neither begins nor ends with white space, and trimming it
/// again changes nothing.
pub proof fn lemma_trimmed(s: Seq<char>)
    ensures
        trimmed(s).len() > 0 ==> !is_white_space(trimmed(s)[0]) && !is_white_space(
            trimmed(s).last(),
        ),
        trimmed(trimmed(s)) == trimmed(s),
{
    let rest = s.skip(blank_prefix(s));
    let t = trimmed(s);
    lemma_blank_prefix_ends(s);
    lemma_blank_suffix_ends(rest);
    if t.len() > 0 {
        assert(t[0] == rest[0]);
        assert(t.last() == rest[rest.len() - blank_suffix(rest) - 1]);
        assert(blank_prefix(t) == 0);
        assert(t.skip(0) =~= t);
        assert(blank_suffix(t) == 0);
        assert(t.take(t.len() as int) =~= t);
    } else {
        assert(blank_prefix(t) == 0);
        assert(t.skip(0) =~= t);
        assert(blank_suffix(t) == 0);
        assert(t.take(0) =~= t);
    }
}

} // verus!
