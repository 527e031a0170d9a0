use build_bpf::headers::{gen_vmlinux, AcquireError, HeaderRun};
use build_bpf::protocol::{Action, Report, Step};

fn text(s: &str) -> Report {
    Report::new(true, s.as_bytes().to_vec())
}

fn yes() -> Report {
    Report::done()
}

fn no() -> Report {
    Report::failed()
}

fn answers(run: &mut HeaderRun, reports: Vec<Report>) -> Vec<Step<AcquireError>> {
    reports.into_iter().map(|report| run.step(report)).collect()
}

fn words(list: &[&str]) -> Vec<String> {
    list.iter().map(|word| word.to_string()).collect()
}

fn probe(path: &str) -> Step<AcquireError> {
    Step::Perform(Action::Probe { path: path.to_string() })
}

fn run_command(program: &str, args: &[&str], dir: &str) -> Step<AcquireError> {
    Step::Perform(Action::Run {
        program: program.to_string(),
        args: words(args),
        dir: dir.to_string(),
    })
}

fn passive(step: &Step<AcquireError>) -> bool {
    matches!(
        step,
        Step::Perform(Action::Probe { .. })
            | Step::Perform(Action::Print { .. })
            | Step::Perform(Action::Read { .. })
            | Step::Perform(Action::Resolve { .. })
            | Step::Finished(_)
    )
}

/// The reports that take a run with the snapshot up to the listing of the
/// snapshot's architectures.
fn up_to_listing() -> Vec<Report> {
    vec![yes(), no(), yes(), yes(), text("/tmp/tmp.Xy12\n"), yes(), yes(), yes()]
}

#[test]
fn an_existing_root_is_left_alone() {
    for with_archs in [false, true] {
        let mut run = gen_vmlinux("/tmp/vmlinux", with_archs);
        assert!(!run.is_finished());
        let steps = answers(&mut run, vec![no(), yes()]);
        assert_eq!(steps, vec![probe("/tmp/vmlinux"), Step::Finished(Ok(()))]);
        assert!(steps.iter().all(passive));
        assert!(run.is_finished());
        assert_eq!(run.held_temp(), None);
        assert_eq!(run.step(no()), Step::Finished(Ok(())));
        assert_eq!(run.step(yes()), Step::Finished(Ok(())));
    }
}

#[test]
fn an_existing_root_is_left_alone_even_when_empty_output_comes_with_it() {
    let mut run = gen_vmlinux("/var/cache/hdr", true);
    let steps = answers(&mut run, vec![text("ignored"), text("also ignored")]);
    assert_eq!(steps, vec![probe("/var/cache/hdr"), Step::Finished(Ok(()))]);
}

#[test]
fn missing_introspection_ends_the_run_at_once() {
    for with_archs in [false, true] {
        let mut run = gen_vmlinux("/tmp/vmlinux", with_archs);
        let steps = answers(&mut run, vec![yes(), no(), no()]);
        assert_eq!(
            steps,
            vec![
                probe("/tmp/vmlinux"),
                probe("/sys/kernel/btf/vmlinux"),
                Step::Finished(Err(AcquireError::BtfUnavailable)),
            ]
        );
        assert!(steps.iter().all(passive));
        assert_eq!(run.step(yes()), Step::Finished(Err(AcquireError::BtfUnavailable)));
    }
}

#[test]
fn a_missing_tool_ends_the_run() {
    let mut run = gen_vmlinux("/tmp/vmlinux", true);
    let steps = answers(&mut run, vec![yes(), no(), yes(), no()]);
    assert_eq!(steps[2], run_command("which", &["bpftool"], ""));
    assert_eq!(steps[3], Step::Finished(Err(AcquireError::ToolMissing)));
}

#[test]
fn the_host_header_holds_what_the_dump_printed() {
    let dump: Vec<u8> = vec![0x2f, 0x2a, 0x20, 0xff, 0x00, 0x0a, 0x2a, 0x2f];
    let mut run = gen_vmlinux("/tmp/vmlinux", false);
    let steps = answers(
        &mut run,
        vec![yes(), no(), yes(), yes(), yes(), Report::new(true, dump.clone()), yes()],
    );
    assert_eq!(
        steps,
        vec![
            probe("/tmp/vmlinux"),
            probe("/sys/kernel/btf/vmlinux"),
            run_command("which", &["bpftool"], ""),
            Step::Perform(Action::CreateDirAll { path: "/tmp/vmlinux/host".to_string() }),
            run_command(
                "bpftool",
                &["btf", "dump", "file", "/sys/kernel/btf/vmlinux", "format", "c"],
                ""
            ),
            Step::Perform(Action::Write {
                path: "/tmp/vmlinux/host/vmlinux_header".to_string(),
                bytes: dump,
            }),
            Step::Finished(Ok(())),
        ]
    );
}

#[test]
fn every_failure_of_the_host_step_is_a_dump_failure() {
    let mut run = gen_vmlinux("/r", false);
    let steps = answers(&mut run, vec![yes(), no(), yes(), yes(), no()]);
    assert_eq!(steps[4], Step::Finished(Err(AcquireError::DumpFailed)));

    let mut run = gen_vmlinux("/r", false);
    let steps = answers(&mut run, vec![yes(), no(), yes(), yes(), yes(), no()]);
    assert_eq!(steps[5], Step::Finished(Err(AcquireError::DumpFailed)));

    let mut run = gen_vmlinux("/r", false);
    let steps = answers(&mut run, vec![yes(), no(), yes(), yes(), yes(), text("x"), no()]);
    assert_eq!(steps[6], Step::Finished(Err(AcquireError::DumpFailed)));
}

#[test]
fn a_fresh_root_gets_the_snapshot_header_and_the_host_header() {
    let mut run = gen_vmlinux("/tmp/vmlinux", true);
    let mut reports = up_to_listing();
    reports.extend(vec![
        text("./x86\n"),
        text("/tmp/tmp.Xy12/libbpf-bootstrap/vmlinux/x86/vmlinux.h"),
        no(),
        yes(),
        yes(),
        yes(),
        yes(),
        yes(),
        text("typedef int s32;\n"),
        yes(),
    ]);
    let steps = answers(&mut run, reports);
    assert_eq!(
        steps,
        vec![
            probe("/tmp/vmlinux"),
            probe("/sys/kernel/btf/vmlinux"),
            run_command("which", &["bpftool"], ""),
            run_command("mktemp", &["-d"], ""),
            probe("/tmp/tmp.Xy12"),
            run_command(
                "git",
                &[
                    "clone",
                    "https://github.com/libbpf/libbpf-bootstrap",
                    "/tmp/tmp.Xy12/libbpf-bootstrap"
                ],
                ""
            ),
            probe("/tmp/tmp.Xy12/libbpf-bootstrap/vmlinux"),
            run_command(
                "find",
                &[".", "-mindepth", "1", "-maxdepth", "1", "-type", "d"],
                "/tmp/tmp.Xy12/libbpf-bootstrap/vmlinux"
            ),
            Step::Perform(Action::Resolve {
                path: "/tmp/tmp.Xy12/libbpf-bootstrap/vmlinux/./x86/vmlinux.h".to_string()
            }),
            probe("/tmp/vmlinux/./x86"),
            Step::Perform(Action::CreateDirAll { path: "/tmp/vmlinux/./x86".to_string() }),
            Step::Perform(Action::Rename {
                from: "/tmp/tmp.Xy12/libbpf-bootstrap/vmlinux/x86/vmlinux.h".to_string(),
                to: "/tmp/vmlinux/./x86/vmlinux_header".to_string(),
            }),
            probe("/tmp/tmp.Xy12"),
            Step::Perform(Action::RemoveTree { path: "/tmp/tmp.Xy12".to_string() }),
            Step::Perform(Action::CreateDirAll { path: "/tmp/vmlinux/host".to_string() }),
            run_command(
                "bpftool",
                &["btf", "dump", "file", "/sys/kernel/btf/vmlinux", "format", "c"],
                ""
            ),
            Step::Perform(Action::Write {
                path: "/tmp/vmlinux/host/vmlinux_header".to_string(),
                bytes: b"typedef int s32;\n".to_vec(),
            }),
            Step::Finished(Ok(())),
        ]
    );
    assert_eq!(run.held_temp(), None);
}

#[test]
fn every_architecture_of_the_snapshot_is_placed() {
    let mut run = gen_vmlinux("/hdr", true);
    let mut reports = up_to_listing();
    reports.extend(vec![
        text("./arm64\n\n./x86\n"),
        text("/t/arm64/vmlinux.h"),
        yes(),
        yes(),
        text("/t/x86/vmlinux.h"),
        no(),
        yes(),
        yes(),
    ]);
    let steps = answers(&mut run, reports);
    let tail = &steps[8..];
    assert_eq!(
        tail,
        &[
            Step::Perform(Action::Resolve {
                path: "/tmp/tmp.Xy12/libbpf-bootstrap/vmlinux/./arm64/vmlinux.h".to_string()
            }),
            probe("/hdr/./arm64"),
            Step::Perform(Action::Rename {
                from: "/t/arm64/vmlinux.h".to_string(),
                to: "/hdr/./arm64/vmlinux_header".to_string(),
            }),
            Step::Perform(Action::Resolve {
                path: "/tmp/tmp.Xy12/libbpf-bootstrap/vmlinux/./x86/vmlinux.h".to_string()
            }),
            probe("/hdr/./x86"),
            Step::Perform(Action::CreateDirAll { path: "/hdr/./x86".to_string() }),
            Step::Perform(Action::Rename {
                from: "/t/x86/vmlinux.h".to_string(),
                to: "/hdr/./x86/vmlinux_header".to_string(),
            }),
            probe("/tmp/tmp.Xy12"),
        ]
    );
    assert_eq!(run.held_temp(), Some("/tmp/tmp.Xy12".to_string()));
}

#[test]
fn a_snapshot_without_architectures_leaves_only_the_host_header() {
    let mut run = gen_vmlinux("/hdr", true);
    let mut reports = up_to_listing();
    reports.extend(vec![text("\n"), no()]);
    let steps = answers(&mut run, reports);
    assert_eq!(steps[8], probe("/tmp/tmp.Xy12"));
    assert_eq!(steps[9], Step::Perform(Action::CreateDirAll { path: "/hdr/host".to_string() }));
    assert_eq!(run.held_temp(), None);
}

#[test]
fn a_temporary_directory_that_cannot_be_made_is_fatal() {
    let mut run = gen_vmlinux("/hdr", true);
    let steps = answers(&mut run, vec![yes(), no(), yes(), yes(), no()]);
    assert_eq!(steps[3], run_command("mktemp", &["-d"], ""));
    assert_eq!(steps[4], Step::Finished(Err(AcquireError::ResourceSetup)));

    let mut run = gen_vmlinux("/hdr", true);
    let named_badly = Report::new(true, vec![0x2f, 0xff, 0xfe]);
    let steps = answers(&mut run, vec![yes(), no(), yes(), yes(), named_badly]);
    assert_eq!(steps[4], Step::Finished(Err(AcquireError::ResourceSetup)));

    let mut run = gen_vmlinux("/hdr", true);
    let steps = answers(&mut run, vec![yes(), no(), yes(), yes(), text("/tmp/t\n"), no()]);
    assert_eq!(steps[4], probe("/tmp/t"));
    assert_eq!(steps[5], Step::Finished(Err(AcquireError::ResourceSetup)));
    assert_eq!(run.held_temp(), None);
}

#[test]
fn a_failed_clone_is_reported_after_the_directory_is_released() {
    let mut run = gen_vmlinux("/hdr", true);
    let steps = answers(
        &mut run,
        vec![yes(), no(), yes(), yes(), text("/tmp/t\n"), yes(), no(), yes(), yes()],
    );
    assert_eq!(steps[6], probe("/tmp/t"));
    assert_eq!(steps[7], Step::Perform(Action::RemoveTree { path: "/tmp/t".to_string() }));
    assert_eq!(steps[8], Step::Finished(Err(AcquireError::FetchFailed)));
    assert_eq!(run.held_temp(), None);
}

#[test]
fn a_directory_that_is_gone_already_is_not_removed() {
    let mut run = gen_vmlinux("/hdr", true);
    let steps = answers(
        &mut run,
        vec![yes(), no(), yes(), yes(), text("/tmp/t\n"), yes(), no(), no()],
    );
    assert_eq!(steps[6], probe("/tmp/t"));
    assert_eq!(steps[7], Step::Finished(Err(AcquireError::FetchFailed)));
    assert_eq!(run.held_temp(), None);
}

#[test]
fn a_directory_that_cannot_be_removed_is_fatal() {
    let mut run = gen_vmlinux("/hdr", true);
    let steps = answers(
        &mut run,
        vec![yes(), no(), yes(), yes(), text("/tmp/t\n"), yes(), no(), yes(), no()],
    );
    assert_eq!(steps[8], Step::Finished(Err(AcquireError::ResourceSetup)));
    assert_eq!(run.held_temp(), Some("/tmp/t".to_string()));
}

#[test]
fn an_unexpected_layout_is_reported_after_the_directory_is_released() {
    let mut missing_dir = up_to_listing();
    missing_dir.truncate(6);
    missing_dir.extend(vec![yes(), no(), no()]);
    let mut run = gen_vmlinux("/hdr", true);
    let steps = answers(&mut run, missing_dir);
    assert_eq!(steps[7], probe("/tmp/tmp.Xy12"));
    assert_eq!(steps[8], Step::Finished(Err(AcquireError::LayoutUnexpected)));

    let mut failed_listing = up_to_listing();
    failed_listing.extend(vec![no(), no()]);
    let mut run = gen_vmlinux("/hdr", true);
    let steps = answers(&mut run, failed_listing);
    assert_eq!(steps[8], probe("/tmp/tmp.Xy12"));
    assert_eq!(steps[9], Step::Finished(Err(AcquireError::LayoutUnexpected)));

    let mut garbled_listing = up_to_listing();
    garbled_listing.extend(vec![Report::new(true, vec![0x2e, 0x2f, 0xc3]), no()]);
    let mut run = gen_vmlinux("/hdr", true);
    let steps = answers(&mut run, garbled_listing);
    assert_eq!(steps[9], Step::Finished(Err(AcquireError::LayoutUnexpected)));

    let mut missing_header = up_to_listing();
    missing_header.extend(vec![text("./x86\n"), no(), yes(), yes()]);
    let mut run = gen_vmlinux("/hdr", true);
    let steps = answers(&mut run, missing_header);
    assert_eq!(steps[9], probe("/tmp/tmp.Xy12"));
    assert_eq!(steps[10], Step::Perform(Action::RemoveTree { path: "/tmp/tmp.Xy12".to_string() }));
    assert_eq!(steps[11], Step::Finished(Err(AcquireError::LayoutUnexpected)));
}

#[test]
fn a_header_that_cannot_be_placed_is_a_fetch_failure() {
    let mut no_dir = up_to_listing();
    no_dir.extend(vec![text("./x86\n"), text("/t/x86/vmlinux.h"), no(), no(), no()]);
    let mut run = gen_vmlinux("/hdr", true);
    let steps = answers(&mut run, no_dir);
    assert_eq!(steps[11], probe("/tmp/tmp.Xy12"));
    assert_eq!(steps[12], Step::Finished(Err(AcquireError::FetchFailed)));

    let mut no_move = up_to_listing();
    no_move.extend(vec![text("./x86\n"), text("/t/x86/vmlinux.h"), yes(), no(), no()]);
    let mut run = gen_vmlinux("/hdr", true);
    let steps = answers(&mut run, no_move);
    assert_eq!(steps[11], probe("/tmp/tmp.Xy12"));
    assert_eq!(steps[12], Step::Finished(Err(AcquireError::FetchFailed)));
}

#[test]
fn the_snapshot_can_come_from_elsewhere() {
    let mut run = HeaderRun::new("/hdr", true, "file:///mirror/bootstrap");
    let steps =
        answers(&mut run, vec![yes(), no(), yes(), yes(), text("  /tmp/t \n"), yes()]);
    assert_eq!(steps[4], probe("/tmp/t"));
    assert_eq!(
        steps[5],
        run_command("git", &["clone", "file:///mirror/bootstrap", "/tmp/t/libbpf-bootstrap"], "")
    );
}

#[test]
fn no_run_goes_on_for_ever() {
    for pattern in 0u32..4096 {
        let mut run = gen_vmlinux("/hdr", true);
        let mut ended = false;
        for turn in 0..64 {
            let success = (pattern >> (turn % 12)) & 1 == 1;
            let report = Report::new(success, b"./a\n./b\n".to_vec());
            if let Step::Finished(result) = run.step(report) {
                if run.held_temp().is_some() {
                    assert_eq!(result, Err(AcquireError::ResourceSetup));
                }
                ended = true;
                break;
            }
        }
        assert!(ended, "pattern {}", pattern);
        assert!(run.is_finished());
    }
}
