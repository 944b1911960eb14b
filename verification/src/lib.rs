//! Orchestration of building a bootable disk image from a kernel binary and
//! of running such an image in an emulator.
//!
//! The crate holds the decisions: where the image goes, what is baked into it,
//! which files are mounted, how the emulator is invoked and in what order all
//! of this happens. Touching the file system, building the image and starting
//! the emulator are left to the caller, who reports back what happened.

use std::path::PathBuf;
use vstd::prelude::*;

pub mod boot;
pub mod emulator;
pub mod mounts;
pub mod orchestrator;
pub mod output;
pub mod paths;
pub mod report;

verus! {

/// The views of the items of a sequence, in the same order.
pub open spec fn views<T: View>(items: Seq<T>) -> Seq<T::V> {
    items.map_values(|item: T| item@)
}

/// Validated command-line input of one invocation.
#[derive(Clone, Debug)]
pub struct Config {
    /// What to do with the input file.
    pub command: SubCommand,
    /// The kernel binary to build from, or the disk image to run.
    pub input_file: PathBuf,
    /// Use UEFI instead of BIOS when building and when running.
    pub uefi: bool,
    /// Directory for the disk image, or the path of the image itself.
    pub out_dir: PathBuf,
    /// Name of the emulator executable.
    pub qemu_path: String,
    /// Extra files to place in the image's file system.
    pub files_to_mount: Vec<PathBuf>,
    /// Do not hand the bundled firmware to the emulator in UEFI mode.
    pub no_ovmf: bool,
    /// Minimum frame buffer height asked of the bootloader.
    pub minimum_framebuffer_height: Option<u64>,
    /// Minimum frame buffer width asked of the bootloader.
    pub minimum_framebuffer_width: Option<u64>,
    /// Least severe level that the bootloader still logs.
    pub log_level: LevelFilter,
    /// Whether the bootloader logs to the frame buffer.
    pub frame_buffer_logging: bool,
    /// Whether the bootloader logs to the serial port.
    pub serial_logging: bool,
    /// Emulator arguments given as options.
    pub args: Vec<String>,
    /// Emulator arguments given after the end-of-options marker.
    pub extra_args: Vec<String>,
}

/// The requested mode of operation.
#[derive(Clone, Copy, Debug, PartialEq, Eq, Structural)]
pub enum SubCommand {
    /// Build a disk image from a kernel binary.
    Build,
    /// Run a disk image in the emulator.
    Run,
    /// Build a disk image and run it.
    BuildRun,
}

impl SubCommand {
    /// Whether this mode has a build stage.
    pub open spec fn spec_builds(self) -> bool {
        self is Build || self is BuildRun
    }

    /// Whether this mode has a run stage.
    pub open spec fn spec_runs(self) -> bool {
        self is Run || self is BuildRun
    }

    /// Whether this mode has a build stage.
    #[verifier::when_used_as_spec(spec_builds)]
    pub fn builds(self) -> (gate: bool)
        ensures
            gate == self.spec_builds(),
            gate || self.spec_runs(),
    {
        match self {
            SubCommand::Build => true,
            SubCommand::Run => false,
            SubCommand::BuildRun => true,
        }
    }

    /// Whether this mode has a run stage.
    #[verifier::when_used_as_spec(spec_runs)]
    pub fn runs(self) -> (gate: bool)
        ensures
            gate == self.spec_runs(),
            gate || self.spec_builds(),
    {
        match self {
            SubCommand::Build => false,
            SubCommand::Run => true,
            SubCommand::BuildRun => true,
        }
    }
}

/// Verbosity threshold of the bootloader's log.
#[derive(Clone, Copy, Debug, PartialEq, Eq, Structural)]
pub enum LevelFilter {
    Off,
    Trace,
    Debug,
    Info,
    Warn,
    Error,
}

/// The firmware interface an image is built for.
#[derive(Clone, Copy, Debug, PartialEq, Eq, Structural)]
pub enum Firmware {
    Bios,
    Uefi,
}

} // verus!
