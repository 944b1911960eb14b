use bootloader_linker::mounts::{resolve_mount, resolve_mounts, MountEntry, MountPlan};
use bootloader_linker::report::Diagnostic;
use std::path::PathBuf;

fn entry(name: &str, source: &str) -> MountEntry {
    MountEntry { name: String::from(name), source: PathBuf::from(source) }
}

#[test]
fn file_is_mounted_under_its_own_name() {
    assert_eq!(
        resolve_mount(PathBuf::from("assets/font.psf")),
        Ok(entry("font.psf", "assets/font.psf"))
    );
    assert_eq!(resolve_mount(PathBuf::from("init")), Ok(entry("init", "init")));
}

#[test]
fn directory_path_is_mounted_under_the_directory_name() {
    assert_eq!(resolve_mount(PathBuf::from("assets/")), Ok(entry("assets", "assets/")));
}

#[test]
fn path_without_a_final_component_is_reported() {
    assert_eq!(
        resolve_mount(PathBuf::from("..")),
        Err(Diagnostic::MountUnresolved(PathBuf::from("..")))
    );
    assert_eq!(
        resolve_mount(PathBuf::from("/")),
        Err(Diagnostic::MountUnresolved(PathBuf::from("/")))
    );
    assert_eq!(
        resolve_mount(PathBuf::from("assets/..")),
        Err(Diagnostic::MountUnresolved(PathBuf::from("assets/..")))
    );
    assert_eq!(
        resolve_mount(PathBuf::from("")),
        Err(Diagnostic::MountUnresolved(PathBuf::from("")))
    );
}

#[test]
fn no_files_give_an_empty_plan() {
    assert_eq!(
        resolve_mounts(&Vec::new()),
        MountPlan { entries: Vec::new(), defects: Vec::new() }
    );
}

#[test]
fn unresolvable_files_are_left_out_and_the_others_keep_their_order() {
    let files = vec![
        PathBuf::from("b/second.txt"),
        PathBuf::from(".."),
        PathBuf::from("a/first.txt"),
        PathBuf::from("/"),
        PathBuf::from("third.bin"),
    ];
    let plan = resolve_mounts(&files);
    assert_eq!(
        plan.entries,
        vec![
            entry("second.txt", "b/second.txt"),
            entry("first.txt", "a/first.txt"),
            entry("third.bin", "third.bin"),
        ]
    );
    assert_eq!(
        plan.defects,
        vec![
            Diagnostic::MountUnresolved(PathBuf::from("..")),
            Diagnostic::MountUnresolved(PathBuf::from("/")),
        ]
    );
}

#[test]
fn one_valid_file_among_unresolvable_ones_is_still_mounted() {
    let files = vec![PathBuf::from(".."), PathBuf::from("only.txt"), PathBuf::from("x/..")];
    let plan = resolve_mounts(&files);
    assert_eq!(plan.entries, vec![entry("only.txt", "only.txt")]);
    assert_eq!(plan.defects.len(), 2);
}

#[test]
fn files_of_the_same_name_are_all_kept() {
    let files = vec![PathBuf::from("a/data.bin"), PathBuf::from("b/data.bin")];
    let plan = resolve_mounts(&files);
    assert_eq!(plan.entries, vec![entry("data.bin", "a/data.bin"), entry("data.bin", "b/data.bin")]);
    assert!(plan.defects.is_empty());
}

#[test]
fn every_file_is_mounted_or_reported() {
    let files = vec![
        PathBuf::from("one"),
        PathBuf::from("two/.."),
        PathBuf::from("three/"),
        PathBuf::from("."),
    ];
    let plan = resolve_mounts(&files);
    assert_eq!(plan.entries.len() + plan.defects.len(), files.len());
}
