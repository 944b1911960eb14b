use bootloader_linker::report::{BuildFailure, Diagnostic, Severity};
use std::path::PathBuf;

fn texts(values: &[&str]) -> Vec<String> {
    values.iter().map(|value| String::from(*value)).collect()
}

#[test]
fn wording_of_the_stage_announcements() {
    assert_eq!(Diagnostic::Building.message(), "Building disk image");
    assert_eq!(Diagnostic::Running.message(), "Running disk image");
}

#[test]
fn wording_of_the_mount_warnings() {
    assert_eq!(
        Diagnostic::MountUnresolved(PathBuf::from("assets/..")).message(),
        "File assets/.. could not be resolved."
    );
    assert_eq!(
        Diagnostic::MountNameNotText(PathBuf::from("name")).message(),
        "File name name not valid utf-8"
    );
}

#[test]
fn wording_of_the_fatal_errors() {
    assert_eq!(
        Diagnostic::BuildFailed(String::from("failed to create FAT partition")).message(),
        "Fatal error encountered while building disk image: failed to create FAT partition"
    );
    assert_eq!(
        Diagnostic::CausedBy(String::from("No such file or directory (os error 2)")).message(),
        "Caused by: No such file or directory (os error 2)"
    );
    assert_eq!(
        Diagnostic::SpawnFailed(String::from("No such file or directory (os error 2)")).message(),
        "Fatal error spawning child process: No such file or directory (os error 2)"
    );
    assert_eq!(
        Diagnostic::WaitFailed(String::from("interrupted")).message(),
        "Fatal error encountered while awaiting child process: interrupted"
    );
}

#[test]
fn severity_of_every_diagnostic() {
    assert_eq!(Diagnostic::Building.severity(), Severity::Trace);
    assert_eq!(Diagnostic::Running.severity(), Severity::Trace);
    assert_eq!(Diagnostic::MountUnresolved(PathBuf::from("/")).severity(), Severity::Warn);
    assert_eq!(Diagnostic::MountNameNotText(PathBuf::from("x")).severity(), Severity::Warn);
    assert_eq!(Diagnostic::BuildFailed(String::new()).severity(), Severity::Error);
    assert_eq!(Diagnostic::CausedBy(String::new()).severity(), Severity::Info);
    assert_eq!(Diagnostic::SpawnFailed(String::new()).severity(), Severity::Error);
    assert_eq!(Diagnostic::WaitFailed(String::new()).severity(), Severity::Error);
}

#[test]
fn failure_is_read_from_a_chain_of_texts() {
    assert_eq!(
        BuildFailure::from_chain(texts(&["top", "middle", "root"])),
        Some(BuildFailure { message: String::from("top"), causes: texts(&["middle", "root"]) })
    );
    assert_eq!(
        BuildFailure::from_chain(texts(&["alone"])),
        Some(BuildFailure { message: String::from("alone"), causes: Vec::new() })
    );
}

#[test]
fn empty_chain_is_no_failure() {
    assert_eq!(BuildFailure::from_chain(Vec::new()), None);
}

#[test]
fn failure_is_read_from_an_error_with_causes() {
    let error = anyhow::Error::msg("disk is full")
        .context("failed to create FAT partition")
        .context("failed to create UEFI image");
    assert_eq!(
        BuildFailure::from_error(&error),
        BuildFailure {
            message: String::from("failed to create UEFI image"),
            causes: texts(&["failed to create FAT partition", "disk is full"]),
        }
    );
}

#[test]
fn failure_is_read_from_an_error_without_causes() {
    let error = anyhow::Error::msg("kernel not found");
    assert_eq!(
        BuildFailure::from_error(&error),
        BuildFailure { message: String::from("kernel not found"), causes: Vec::new() }
    );
}

#[test]
fn report_lists_the_message_and_then_the_causes() {
    let failure =
        BuildFailure { message: String::from("top"), causes: texts(&["middle", "root"]) };
    assert_eq!(
        failure.report(),
        vec![
            Diagnostic::BuildFailed(String::from("top")),
            Diagnostic::CausedBy(String::from("middle")),
            Diagnostic::CausedBy(String::from("root")),
        ]
    );
}

#[test]
fn report_of_a_failure_without_causes() {
    let failure = BuildFailure { message: String::from("top"), causes: Vec::new() };
    assert_eq!(failure.report(), vec![Diagnostic::BuildFailed(String::from("top"))]);
}

#[test]
fn report_renders_as_the_log_lines() {
    let error = anyhow::Error::msg("permission denied").context("failed to write image");
    let lines: Vec<(Severity, String)> = BuildFailure::from_error(&error)
        .report()
        .iter()
        .map(|line| (line.severity(), line.message()))
        .collect();
    assert_eq!(
        lines,
        vec![
            (
                Severity::Error,
                String::from(
                    "Fatal error encountered while building disk image: failed to write image"
                )
            ),
            (Severity::Info, String::from("Caused by: permission denied")),
        ]
    );
}
