//! Build targets: one per program source found below `src/bpf`.

use crate::arch::{cargo_arch_to_kernel_arch, kernel_arch_of};
use crate::text::{
    ends_with, has_suffix, join2, join4, prefix_before, suffix_after, take_after_last,
    take_before,
};
use vstd::prelude::*;
use vstd::string::*;

verus! {

/// What the build tool tells a build script about the build.
#[derive(Clone, Debug)]
pub struct CargoEnv {
    /// The root directory of the package that is being built.
    pub manifest_dir: String,
    /// The directory for what the build script generates.
    pub out_dir: String,
    /// The build tool's name for the architecture that is built for.
    pub target_arch: String,
    /// Whether the headers of the other architectures are wanted too.
    pub vmlinux_archs: bool,
}

/// The directory, below the package root, that holds the program sources.
pub open spec fn source_dir(manifest_dir: Seq<char>) -> Seq<char> {
    manifest_dir + "/src/bpf"@
}

/// The source file of program `prog`.
pub open spec fn source_file(manifest_dir: Seq<char>, prog: Seq<char>) -> Seq<char> {
    manifest_dir + "/src/bpf/"@ + prog + ".bpf.c"@
}

/// The header root of a build that generates into `out_dir`.
pub open spec fn header_root(out_dir: Seq<char>) -> Seq<char> {
    out_dir + "/include/vmlinux"@
}

/// The binding file that is generated for program `prog`.
pub open spec fn binding_file(out_dir: Seq<char>, prog: Seq<char>) -> Seq<char> {
    out_dir + "/skel_"@ + prog + ".rs"@
}

/// Whether a file of this name is a program source.
pub open spec fn is_prog_source(name: Seq<char>) -> bool {
    has_suffix(name, ".bpf.c"@)
}

/// The program that a source file of this name holds: the name up to its
/// first dot.
pub open spec fn prog_name_of(name: Seq<char>) -> Seq<char> {
    prefix_before(name, '.')
}

/// The programs whose sources are among the files named `entries`, in the
/// order of the entries.
pub open spec fn prog_names(entries: Seq<Seq<char>>) -> Seq<Seq<char>> {
    entries.filter(|name: Seq<char>| is_prog_source(name)).map_values(
        |name: Seq<char>| prog_name_of(name),
    )
}

/// A build target as the contracts see it.
pub struct TargetView {
    pub bpf_prog_src_file: Seq<char>,
    pub vmlinux_base_dir: Seq<char>,
    pub skel_dst_file: Seq<char>,
}

/// The target that builds program `prog`.
pub open spec fn target_of(manifest_dir: Seq<char>, out_dir: Seq<char>, prog: Seq<char>) -> TargetView {
    TargetView {
        bpf_prog_src_file: source_file(manifest_dir, prog),
        vmlinux_base_dir: header_root(out_dir),
        skel_dst_file: binding_file(out_dir, prog),
    }
}

/// The targets of a build whose source directory holds the files named
/// `entries`.
pub open spec fn targets_of(
    manifest_dir: Seq<char>,
    out_dir: Seq<char>,
    entries: Seq<Seq<char>>,
) -> Seq<TargetView> {
    prog_names(entries).map_values(|prog: Seq<char>| target_of(manifest_dir, out_dir, prog))
}

/// The name of the program that `source` holds: the last component of the
/// path, up to its first dot.
pub open spec fn prog_name_of_path(source: Seq<char>) -> Seq<char> {
    prefix_before(suffix_after(source, '/'), '.')
}

/// One program to build: its source, the header root it compiles against and
/// the binding file that is generated for it.
#[derive(Clone, Debug)]
pub struct BuildBpf {
    bpf_prog_src_file: String,
    vmlinux_base_dir: String,
    skel_dst_file: String,
}

impl View for BuildBpf {
    type V = TargetView;

    closed spec fn view(&self) -> TargetView {
        TargetView {
            bpf_prog_src_file: self.bpf_prog_src_file@,
            vmlinux_base_dir: self.vmlinux_base_dir@,
            skel_dst_file: self.skel_dst_file@,
        }
    }
}

impl DeepView for BuildBpf {
    type V = TargetView;

    open spec fn deep_view(&self) -> TargetView {
        self@
    }
}

proof fn lemma_prog_names_push(entries: Seq<Seq<char>>, name: Seq<char>)
    ensures
        prog_names(entries.push(name)) == if is_prog_source(name) {
            prog_names(entries).push(prog_name_of(name))
        } else {
            prog_names(entries)
        },
{
    let keep = |name: Seq<char>| is_prog_source(name);
    reveal_with_fuel(Seq::filter, 2);
    assert(entries.push(name).drop_last() =~= entries);
    assert(entries.push(name).filter(keep) == if keep(name) {
        entries.filter(keep).push(name)
    } else {
        entries.filter(keep)
    });
    if is_prog_source(name) {
        assert(prog_names(entries.push(name)) =~= prog_names(entries).push(prog_name_of(name)));
    }
}

/// The programs whose sources are among the files named `entries`.
pub fn guess_bpf_prog_names(entries: &Vec<String>) -> (names: Vec<String>)
    ensures
        names.deep_view() == prog_names(entries.deep_view()),
{
    let mut names: Vec<String> = Vec::new();
    let mut i: usize = 0;
    assert(entries.deep_view().take(0) =~= Seq::empty());
    assert(names.deep_view() =~= prog_names(Seq::empty())) by {
        reveal_with_fuel(Seq::filter, 1);
    }
    while i < entries.len()
        invariant
            i <= entries.len(),
            names.deep_view() == prog_names(entries.deep_view().take(i as int)),
        decreases entries.len() - i,
    {
        let ghost seen = entries.deep_view().take(i as int);
        let ghost before = names.deep_view();
        let entry = entries[i].as_str();
        proof {
            assert(entries.deep_view().take(i + 1) =~= seen.push(entry@));
            lemma_prog_names_push(seen, entry@);
        }
        if ends_with(entry, ".bpf.c") {
            names.push(take_before(entry, '.'));
            assert(names.deep_view() =~= before.push(prog_name_of(entry@)));
        }
        i += 1;
    }
    assert(entries.deep_view().take(i as int) =~= entries.deep_view());
    names
}

/// The targets of the build that `env` describes, one for each program
/// source among the files named `entries`, the names of the files in the
/// build's source directory.
pub fn guess_targets(env: &CargoEnv, entries: &Vec<String>) -> (targets: Vec<BuildBpf>)
    ensures
        targets.deep_view() == targets_of(
            env.manifest_dir@,
            env.out_dir@,
            entries.deep_view(),
        ),
{
    let names = guess_bpf_prog_names(entries);
    let cratedir = env.manifest_dir.as_str();
    let outdir = env.out_dir.as_str();
    let mut targets: Vec<BuildBpf> = Vec::new();
    let mut i: usize = 0;
    while i < names.len()
        invariant
            i <= names.len(),
            cratedir@ == env.manifest_dir@,
            outdir@ == env.out_dir@,
            targets.len() == i,
            forall|k: int|
                0 <= k < i ==> (#[trigger] targets@[k])@ == target_of(
                    cratedir@,
                    outdir@,
                    names.deep_view()[k],
                ),
        decreases names.len() - i,
    {
        let prog = names[i].as_str();
        let target = BuildBpf {
            bpf_prog_src_file: join4(cratedir, "/src/bpf/", prog, ".bpf.c"),
            vmlinux_base_dir: join2(outdir, "/include/vmlinux"),
            skel_dst_file: join4(outdir, "/skel_", prog, ".rs"),
        };
        targets.push(target);
        i += 1;
    }
    assert(targets.deep_view() =~= targets_of(
        env.manifest_dir@,
        env.out_dir@,
        entries.deep_view(),
    ));
    targets
}

impl CargoEnv {
    /// The directory whose files are the candidates for program sources.
    pub fn bpf_source_dir(&self) -> (dir: String)
        ensures
            dir@ == source_dir(self.manifest_dir@),
    {
        join2(self.manifest_dir.as_str(), "/src/bpf")
    }

    /// The root directory of the package that is being built.
    pub fn cargo_crate_manifest_dir(&self) -> (dir: &str)
        ensures
            dir@ == self.manifest_dir@,
    {
        self.manifest_dir.as_str()
    }

    /// The directory for what the build script generates.
    pub fn cargo_out_dir(&self) -> (dir: &str)
        ensures
            dir@ == self.out_dir@,
    {
        self.out_dir.as_str()
    }

    /// The build tool's name for the architecture that is built for.
    pub fn cargo_arch(&self) -> (arch: &str)
        ensures
            arch@ == self.target_arch@,
    {
        self.target_arch.as_str()
    }

    /// The kernel's name for the architecture that is built for.
    pub fn kernel_arch(&self) -> (arch: String)
        ensures
            arch@ == kernel_arch_of(self.target_arch@),
    {
        String::from_str(cargo_arch_to_kernel_arch(self.target_arch.as_str()))
    }
}

impl BuildBpf {
    /// The name of the program: the file name of its source up to the first
    /// dot.
    pub fn bpf_prog_name(&self) -> (name: String)
        ensures
            name@ == prog_name_of_path(self@.bpf_prog_src_file),
    {
        let filename = take_after_last(self.bpf_prog_src_file.as_str(), '/');
        take_before(filename.as_str(), '.')
    }

    /// The source file of the program.
    pub fn source(&self) -> (path: &str)
        ensures
            path@ == self@.bpf_prog_src_file,
    {
        self.bpf_prog_src_file.as_str()
    }

    /// The header root that the program is compiled against.
    pub fn header_root(&self) -> (path: &str)
        ensures
            path@ == self@.vmlinux_base_dir,
    {
        self.vmlinux_base_dir.as_str()
    }

    /// The binding file that is generated for the program.
    pub fn binding(&self) -> (path: &str)
        ensures
            path@ == self@.skel_dst_file,
    {
        self.skel_dst_file.as_str()
    }
}

} // verus!
