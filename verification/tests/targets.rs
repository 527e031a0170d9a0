use build_bpf::target::{guess_bpf_prog_names, guess_targets, CargoEnv};

fn env() -> CargoEnv {
    CargoEnv {
        manifest_dir: "/work/pkg".to_string(),
        out_dir: "/work/target/out".to_string(),
        target_arch: "x86_64".to_string(),
        vmlinux_archs: false,
    }
}

fn names(list: &[&str]) -> Vec<String> {
    list.iter().map(|name| name.to_string()).collect()
}

#[test]
fn program_names_come_from_the_sources_only() {
    let entries = names(&["trace.bpf.c", "README.md", "net.bpf.c", "trace.bpf.h", "x.c"]);
    assert_eq!(guess_bpf_prog_names(&entries), vec!["trace", "net"]);
}

#[test]
fn program_name_ends_at_the_first_dot() {
    let entries = names(&["a.b.bpf.c", ".bpf.c", "plain.bpf.c"]);
    assert_eq!(guess_bpf_prog_names(&entries), vec!["a", "", "plain"]);
}

#[test]
fn no_entries_no_programs() {
    assert_eq!(guess_bpf_prog_names(&Vec::new()), Vec::<String>::new());
    assert!(guess_targets(&env(), &Vec::new()).is_empty());
    assert!(guess_targets(&env(), &names(&["notes.txt"])).is_empty());
}

#[test]
fn targets_are_named_after_their_programs() {
    let targets = guess_targets(&env(), &names(&["trace.bpf.c", "skip.txt", "net.bpf.c"]));
    assert_eq!(targets.len(), 2);
    assert_eq!(targets[0].source(), "/work/pkg/src/bpf/trace.bpf.c");
    assert_eq!(targets[0].header_root(), "/work/target/out/include/vmlinux");
    assert_eq!(targets[0].binding(), "/work/target/out/skel_trace.rs");
    assert_eq!(targets[1].source(), "/work/pkg/src/bpf/net.bpf.c");
    assert_eq!(targets[1].header_root(), "/work/target/out/include/vmlinux");
    assert_eq!(targets[1].binding(), "/work/target/out/skel_net.rs");
}

#[test]
fn all_targets_share_one_header_root() {
    let targets = guess_targets(&env(), &names(&["a.bpf.c", "b.bpf.c", "c.bpf.c"]));
    assert_eq!(targets.len(), 3);
    for target in &targets {
        assert_eq!(target.header_root(), targets[0].header_root());
    }
}

#[test]
fn a_target_knows_its_program() {
    let entries = names(&["trace.bpf.c", "a.b.bpf.c", ".bpf.c"]);
    let targets = guess_targets(&env(), &entries);
    let programs: Vec<String> = targets.iter().map(|target| target.bpf_prog_name()).collect();
    assert_eq!(programs, guess_bpf_prog_names(&entries));
    assert_eq!(programs, vec!["trace", "a", ""]);
}

#[test]
fn the_program_name_is_taken_from_the_file_name_alone() {
    let dotted = CargoEnv {
        manifest_dir: "/work/pkg.d/v1.2".to_string(),
        out_dir: "/out".to_string(),
        target_arch: "aarch64".to_string(),
        vmlinux_archs: true,
    };
    let targets = guess_targets(&dotted, &names(&["trace.bpf.c"]));
    assert_eq!(targets[0].source(), "/work/pkg.d/v1.2/src/bpf/trace.bpf.c");
    assert_eq!(targets[0].bpf_prog_name(), "trace");
}

#[test]
fn the_environment_answers_for_itself() {
    let env = env();
    assert_eq!(env.cargo_crate_manifest_dir(), "/work/pkg");
    assert_eq!(env.cargo_out_dir(), "/work/target/out");
    assert_eq!(env.cargo_arch(), "x86_64");
    assert_eq!(env.kernel_arch(), "x86");
    assert_eq!(env.bpf_source_dir(), "/work/pkg/src/bpf");
    let other = CargoEnv { target_arch: "sparc64".to_string(), ..env };
    assert_eq!(other.kernel_arch(), "host");
}
