use build_bpf::protocol::{Action, Report, Step};
use build_bpf::publish::{
    same_bytes, sym_link_when_files_differ, try_file_content_differs, DiffError, LinkAction,
    PublishError, PublishRun,
};
use build_bpf::target::{guess_targets, CargoEnv};

fn read(bytes: &[u8]) -> Report {
    Report::new(true, bytes.to_vec())
}

fn answers(run: &mut PublishRun, reports: Vec<Report>) -> Vec<Step<PublishError>> {
    reports.into_iter().map(|report| run.step(report)).collect()
}

fn mutating(step: &Step<PublishError>) -> bool {
    matches!(
        step,
        Step::Perform(Action::RemoveFile { .. })
            | Step::Perform(Action::Symlink { .. })
            | Step::Perform(Action::Write { .. })
            | Step::Perform(Action::Rename { .. })
            | Step::Perform(Action::CreateDirAll { .. })
            | Step::Perform(Action::RemoveTree { .. })
            | Step::Perform(Action::Run { .. })
            | Step::Perform(Action::Compile { .. })
    )
}

#[test]
fn same_bytes_compares_contents() {
    assert!(same_bytes(&vec![1, 2, 3], &vec![1, 2, 3]));
    assert!(same_bytes(&Vec::new(), &Vec::new()));
    assert!(!same_bytes(&vec![1, 2, 3], &vec![1, 2, 4]));
    assert!(!same_bytes(&vec![1, 2, 3], &vec![1, 2]));
    assert!(!same_bytes(&Vec::new(), &vec![0]));
}

#[test]
fn files_differ_when_their_bytes_do() {
    let a = vec![1u8, 2, 3];
    let b = vec![1u8, 2, 4];
    assert_eq!(try_file_content_differs(Some(&a), Some(&a)), Ok(false));
    assert_eq!(try_file_content_differs(Some(&a), Some(&b)), Ok(true));
    assert_eq!(try_file_content_differs(Some(&a), Some(&Vec::new())), Ok(true));
}

#[test]
fn each_unreadable_file_has_its_error() {
    let a = vec![1u8];
    assert_eq!(try_file_content_differs(None, Some(&a)), Err(DiffError::File1Read));
    assert_eq!(try_file_content_differs(None, None), Err(DiffError::File1Read));
    assert_eq!(try_file_content_differs(Some(&a), None), Err(DiffError::File2Read));
}

#[test]
fn the_alias_is_replaced_when_it_differs_or_is_missing() {
    let a = b"fn main() {}".to_vec();
    let b = b"fn main() { }".to_vec();
    assert_eq!(sym_link_when_files_differ(Some(&a), Some(&b)), Ok(LinkAction::Replace));
    assert_eq!(sym_link_when_files_differ(Some(&a), None), Ok(LinkAction::Replace));
    assert_eq!(sym_link_when_files_differ(Some(&Vec::new()), None), Ok(LinkAction::Replace));
}

#[test]
fn the_alias_is_kept_when_it_holds_the_same() {
    let a = b"fn main() {}".to_vec();
    assert_eq!(sym_link_when_files_differ(Some(&a), Some(&a.clone())), Ok(LinkAction::Keep));
    assert_eq!(sym_link_when_files_differ(Some(&Vec::new()), Some(&Vec::new())), Ok(LinkAction::Keep));
}

#[test]
fn a_missing_binding_is_an_error() {
    let b = vec![7u8];
    assert_eq!(sym_link_when_files_differ(None, Some(&b)), Err(PublishError::SourceMissing));
    assert_eq!(sym_link_when_files_differ(None, None), Err(PublishError::SourceMissing));
}

#[test]
fn publishing_to_a_missing_alias_links_it_to_the_binding() {
    let mut run = PublishRun::new("/out/skel_prog.bin", "/src/skel_prog.bin", false);
    let steps = answers(
        &mut run,
        vec![
            Report::done(),
            Report::done(),
            read(b"binding"),
            Report::failed(),
            Report::failed(),
            Report::done(),
        ],
    );
    assert_eq!(
        steps,
        vec![
            Step::Perform(Action::Print {
                line: "cargo:rerun-if-changed=/src/skel_prog.bin".to_string()
            }),
            Step::Perform(Action::Read { path: "/out/skel_prog.bin".to_string() }),
            Step::Perform(Action::Read { path: "/src/skel_prog.bin".to_string() }),
            Step::Perform(Action::RemoveFile { path: "/src/skel_prog.bin".to_string() }),
            Step::Perform(Action::Symlink {
                file: "/out/skel_prog.bin".to_string(),
                link: "/src/skel_prog.bin".to_string(),
            }),
            Step::Finished(Ok(())),
        ]
    );
}

#[test]
fn publishing_a_changed_binding_replaces_the_alias() {
    let mut run = PublishRun::new("/out/skel.rs", "/src/skel.rs", false);
    let steps = answers(
        &mut run,
        vec![
            Report::done(),
            Report::done(),
            read(b"new"),
            read(b"old"),
            Report::done(),
            Report::done(),
        ],
    );
    assert_eq!(steps[3], Step::Perform(Action::RemoveFile { path: "/src/skel.rs".to_string() }));
    assert_eq!(
        steps[4],
        Step::Perform(Action::Symlink {
            file: "/out/skel.rs".to_string(),
            link: "/src/skel.rs".to_string(),
        })
    );
    assert_eq!(steps[5], Step::Finished(Ok(())));
}

#[test]
fn publishing_an_unchanged_binding_changes_nothing() {
    let mut run = PublishRun::new("/out/skel.rs", "/src/skel.rs", false);
    let steps = answers(
        &mut run,
        vec![Report::done(), Report::done(), read(b"same"), read(b"same")],
    );
    assert_eq!(steps.len(), 4);
    assert_eq!(steps[3], Step::Finished(Ok(())));
    assert!(steps.iter().all(|step| !mutating(step)));
    assert_eq!(run.step(Report::done()), Step::Finished(Ok(())));
}

#[test]
fn publishing_without_a_binding_fails_before_the_alias_is_read() {
    let mut run = PublishRun::new("/out/skel.rs", "/src/skel.rs", false);
    let steps = answers(&mut run, vec![Report::done(), Report::done(), Report::failed()]);
    assert_eq!(steps[2], Step::Finished(Err(PublishError::SourceMissing)));
    assert!(steps.iter().all(|step| !mutating(step)));
    assert_eq!(run.step(read(b"late")), Step::Finished(Err(PublishError::SourceMissing)));
}

#[test]
fn a_link_that_cannot_be_made_is_an_error() {
    let mut run = PublishRun::new("/out/skel.rs", "/src/skel.rs", false);
    let steps = answers(
        &mut run,
        vec![
            Report::done(),
            Report::done(),
            read(b"new"),
            read(b"old"),
            Report::done(),
            Report::failed(),
        ],
    );
    assert_eq!(steps[5], Step::Finished(Err(PublishError::LinkFailed)));
}

#[test]
fn a_strict_run_stops_the_build_on_failure() {
    let mut run = PublishRun::new("/out/skel.rs", "/src/skel.rs", true);
    let steps = answers(&mut run, vec![Report::done(), Report::done(), Report::failed()]);
    assert_eq!(steps[2], Step::Aborted(PublishError::SourceMissing));
    assert_eq!(run.step(Report::done()), Step::Aborted(PublishError::SourceMissing));

    let mut run = PublishRun::new("/out/skel.rs", "/src/skel.rs", true);
    let steps = answers(
        &mut run,
        vec![Report::done(), Report::done(), read(b"a"), Report::failed(), Report::done(), Report::failed()],
    );
    assert_eq!(steps[5], Step::Aborted(PublishError::LinkFailed));
}

#[test]
fn a_strict_run_succeeds_like_any_other() {
    let mut run = PublishRun::new("/out/skel.rs", "/src/skel.rs", true);
    let steps = answers(
        &mut run,
        vec![Report::done(), Report::done(), read(b"same"), read(b"same")],
    );
    assert_eq!(steps[3], Step::Finished(Ok(())));
}

#[test]
fn a_target_publishes_its_own_binding() {
    let env = CargoEnv {
        manifest_dir: "/pkg".to_string(),
        out_dir: "/out".to_string(),
        target_arch: "x86_64".to_string(),
        vmlinux_archs: false,
    };
    let targets = guess_targets(&env, &vec!["trace.bpf.c".to_string()]);
    let mut run = targets[0].try_sym_link_skel_to("src/skel_trace.rs");
    let steps = answers(&mut run, vec![Report::done(), Report::done(), Report::failed()]);
    assert_eq!(
        steps[0],
        Step::Perform(Action::Print { line: "cargo:rerun-if-changed=src/skel_trace.rs".to_string() })
    );
    assert_eq!(steps[1], Step::Perform(Action::Read { path: "/out/skel_trace.rs".to_string() }));
    assert_eq!(steps[2], Step::Finished(Err(PublishError::SourceMissing)));

    let mut run = targets[0].must_sym_link_skel_to("src/skel_trace.rs");
    let steps = answers(&mut run, vec![Report::done(), Report::done(), Report::failed()]);
    assert_eq!(steps[1], Step::Perform(Action::Read { path: "/out/skel_trace.rs".to_string() }));
    assert_eq!(steps[2], Step::Aborted(PublishError::SourceMissing));
}
