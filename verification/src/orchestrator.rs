//! The course of one invocation.
//!
//! An invocation passes through a build stage, a run stage, or both. The
//! work itself is the caller's: asking the file system, building the image,
//! starting the emulator. `advance` says what to do next. The caller does it
//! and comes back with the event that tells how it went:
//!
//! ```text
//! Idle --Start--> ProbingOutput --> (CreatingOutput -->) Building
//!                                                           |
//!      --Start (run only)--> (LocatingFirmware -->) Launching --> Done
//! ```

use crate::boot::BootSettings;
use crate::emulator::{
    argument_vector, arguments_come_in_order, drive_value, emulator_arguments, needs_firmware,
    wants_firmware, ArgumentView, LaunchRequest, LaunchRequestView,
};
use crate::mounts::{
    defects_are_warnings, mount_defects, mount_entries, resolve_mounts, MountEntry,
    MountEntryView,
};
use crate::output::{get_output_path, needs_directory, output_path, wants_directory};
use crate::paths::{has_trailing_separator, path_join, path_text, text_of};
use crate::report::{BuildFailure, Diagnostic, DiagnosticView, Severity};
use crate::{views, Config, Firmware, SubCommand};
use std::path::PathBuf;
use vstd::prelude::*;

verus! {

/// Where an invocation stands: what the caller was last asked to do.
#[derive(Clone, Debug, PartialEq, Eq)]
pub enum Stage {
    /// Nothing has happened yet.
    Idle,
    /// The caller is finding out whether the output hint is a directory.
    ProbingOutput,
    /// The caller is creating the directory that the output hint names.
    CreatingOutput,
    /// The caller is building the image at `output`.
    Building { output: PathBuf },
    /// The caller is locating the bundled firmware image; `artifact` is the
    /// image that will be run.
    LocatingFirmware { artifact: PathBuf },
    /// The caller is running the emulator.
    Launching,
    /// The invocation is over.
    Done,
}

/// What the caller reports back.
#[derive(Clone, Debug, PartialEq, Eq)]
pub enum Event {
    /// The invocation begins.
    Start,
    /// Whether the output hint names an existing directory.
    DirectoryProbed { is_dir: bool },
    /// Whether the directory, with all its missing parents, was created.
    DirectoryCreated { created: bool },
    /// The image was built.
    Built,
    /// The image could not be built.
    BuildFailed(BuildFailure),
    /// The bundled firmware image is at this path.
    FirmwareLocated(PathBuf),
    /// The emulator ran and has exited, with whatever status.
    EmulatorExited,
    /// The emulator could not be started; holds the system's message.
    SpawnFailed(String),
    /// Waiting for the emulator failed; holds the system's message.
    WaitFailed(String),
}

/// Everything the image builder needs for one image.
#[derive(Clone, Debug, PartialEq, Eq)]
pub struct BuildRequest {
    /// The kernel binary.
    pub kernel: PathBuf,
    /// The boot-time configuration to bake in.
    pub boot: BootSettings,
    /// The files to place in the image's file system, in this order.
    pub mounts: Vec<MountEntry>,
    /// The firmware interface to build for.
    pub firmware: Firmware,
    /// Where the image is written.
    pub output: PathBuf,
}

/// A build request with its mounts as a sequence of entry views.
pub ghost struct BuildRequestView {
    pub kernel: PathBuf,
    pub boot: BootSettings,
    pub mounts: Seq<MountEntryView>,
    pub firmware: Firmware,
    pub output: PathBuf,
}

impl View for BuildRequest {
    type V = BuildRequestView;

    open spec fn view(&self) -> BuildRequestView {
        BuildRequestView {
            kernel: self.kernel,
            boot: self.boot,
            mounts: views(self.mounts@),
            firmware: self.firmware,
            output: self.output,
        }
    }
}

/// What the caller is to do next.
#[derive(Clone, Debug, PartialEq, Eq)]
pub enum Action {
    /// Find out whether the path names an existing directory.
    ProbeDirectory(PathBuf),
    /// Create the directory and all its missing parents.
    CreateDirectory(PathBuf),
    /// Build one image.
    Build(BuildRequest),
    /// Locate the bundled firmware image.
    LocateFirmware,
    /// Start the emulator and wait for it to exit.
    Launch(LaunchRequest),
    /// End the process with this status.
    Exit { status: i32 },
    /// Give up: the image to run is at a path that is not valid Unicode, so
    /// it cannot be named to the emulator.
    Abort(PathBuf),
}

/// An action with its requests as views.
pub ghost enum ActionView {
    ProbeDirectory(PathBuf),
    CreateDirectory(PathBuf),
    Build(BuildRequestView),
    LocateFirmware,
    Launch(LaunchRequestView),
    Exit { status: i32 },
    Abort(PathBuf),
}

impl View for Action {
    type V = ActionView;

    open spec fn view(&self) -> ActionView {
        match *self {
            Action::ProbeDirectory(path) => ActionView::ProbeDirectory(path),
            Action::CreateDirectory(path) => ActionView::CreateDirectory(path),
            Action::Build(request) => ActionView::Build(request@),
            Action::LocateFirmware => ActionView::LocateFirmware,
            Action::Launch(request) => ActionView::Launch(request@),
            Action::Exit { status } => ActionView::Exit { status },
            Action::Abort(path) => ActionView::Abort(path),
        }
    }
}

/// One step of an invocation: the stage it leads to, what the caller is to
/// do, and what to tell the user before doing it.
#[derive(Clone, Debug, PartialEq, Eq)]
pub struct Step {
    pub stage: Stage,
    pub action: Action,
    pub log: Vec<Diagnostic>,
}

/// A step with its action and its diagnostics as views.
pub ghost struct StepView {
    pub stage: Stage,
    pub action: ActionView,
    pub log: Seq<DiagnosticView>,
}

impl View for Step {
    type V = StepView;

    open spec fn view(&self) -> StepView {
        StepView { stage: self.stage, action: self.action@, log: views(self.log@) }
    }
}

/// The exit status of an invocation that did all it was asked to.
pub const EXIT_SUCCESS: i32 = 0;

/// The exit status of an invocation that failed to build or to run.
pub const EXIT_FAILURE: i32 = 1;

/// The step that ends the invocation.
pub open spec fn step_to_exit(status: i32, log: Seq<DiagnosticView>) -> StepView {
    StepView { stage: Stage::Done, action: ActionView::Exit { status }, log }
}

/// The step that hands the image builder its request, once the image is
/// known to go to `output`. Files that cannot be mounted are left out of the
/// request and reported; they never hold the build up.
pub open spec fn step_into_build(config: Config, output: PathBuf) -> StepView {
    StepView {
        stage: Stage::Building { output },
        action: ActionView::Build(
            BuildRequestView {
                kernel: config.input_file,
                boot: config.spec_boot_settings(),
                mounts: mount_entries(config.files_to_mount@),
                firmware: Firmware::spec_of_flag(config.uefi),
                output,
            },
        ),
        log: mount_defects(config.files_to_mount@),
    }
}

/// The step that starts the emulator on the image at `artifact`, with the
/// firmware image if one is handed over. An image whose path is not valid
/// Unicode cannot be run.
pub open spec fn step_into_launch(
    config: Config,
    artifact: PathBuf,
    firmware: Option<PathBuf>,
    log: Seq<DiagnosticView>,
) -> StepView {
    match path_text(artifact) {
        Some(text) => StepView {
            stage: Stage::Launching,
            action: ActionView::Launch(
                LaunchRequestView {
                    program: config.qemu_path@,
                    arguments: argument_vector(
                        firmware,
                        text,
                        views(config.args@),
                        views(config.extra_args@),
                    ),
                },
            ),
            log,
        },
        None => StepView { stage: Stage::Done, action: ActionView::Abort(artifact), log },
    }
}

/// The step that opens the run stage for the image at `artifact`: the
/// firmware image is located first where the emulator is to get it.
pub open spec fn step_into_run(config: Config, artifact: PathBuf) -> StepView {
    if wants_firmware(config.uefi, config.no_ovmf) {
        StepView {
            stage: Stage::LocatingFirmware { artifact },
            action: ActionView::LocateFirmware,
            log: seq![DiagnosticView::Running],
        }
    } else {
        step_into_launch(config, artifact, None, seq![DiagnosticView::Running])
    }
}

/// The step that `event` leads to from `stage`, or `None` where the stage
/// does not await that event.
pub open spec fn next_step(config: Config, stage: Stage, event: Event) -> Option<StepView> {
    let image_name = Firmware::spec_of_flag(config.uefi).spec_default_file_name();
    match (stage, event) {
        (Stage::Idle, Event::Start) => Some(
            if config.command.spec_builds() {
                StepView {
                    stage: Stage::ProbingOutput,
                    action: ActionView::ProbeDirectory(config.out_dir),
                    log: seq![DiagnosticView::Building],
                }
            } else {
                step_into_run(config, config.input_file)
            },
        ),
        (Stage::ProbingOutput, Event::DirectoryProbed { is_dir }) => Some(
            if wants_directory(config.out_dir, is_dir) {
                StepView {
                    stage: Stage::CreatingOutput,
                    action: ActionView::CreateDirectory(config.out_dir),
                    log: seq![],
                }
            } else {
                step_into_build(config, output_path(config.out_dir, image_name, is_dir, false))
            },
        ),
        (Stage::CreatingOutput, Event::DirectoryCreated { created }) => Some(
            step_into_build(config, output_path(config.out_dir, image_name, false, created)),
        ),
        (Stage::Building { output }, Event::Built) => Some(
            if config.command.spec_runs() {
                step_into_run(config, output)
            } else {
                step_to_exit(EXIT_SUCCESS, seq![])
            },
        ),
        (Stage::Building { output }, Event::BuildFailed(failure)) => Some(
            step_to_exit(
                EXIT_FAILURE,
                BuildFailure::spec_report(failure.message@, views(failure.causes@)),
            ),
        ),
        (Stage::LocatingFirmware { artifact }, Event::FirmwareLocated(firmware)) => Some(
            step_into_launch(config, artifact, Some(firmware), seq![]),
        ),
        (Stage::Launching, Event::EmulatorExited) => Some(step_to_exit(EXIT_SUCCESS, seq![])),
        (Stage::Launching, Event::SpawnFailed(text)) => Some(
            step_to_exit(EXIT_FAILURE, seq![DiagnosticView::SpawnFailed(text@)]),
        ),
        (Stage::Launching, Event::WaitFailed(text)) => Some(
            step_to_exit(EXIT_FAILURE, seq![DiagnosticView::WaitFailed(text@)]),
        ),
        _ => None,
    }
}

/// No diagnostics.
fn silent() -> (log: Vec<Diagnostic>)
    ensures
        views(log@) == Seq::<DiagnosticView>::empty(),
{
    let log: Vec<Diagnostic> = Vec::new();
    assert(views(log@) =~= Seq::<DiagnosticView>::empty());
    log
}

/// One diagnostic.
fn only(diagnostic: Diagnostic) -> (log: Vec<Diagnostic>)
    ensures
        views(log@) == seq![diagnostic@],
{
    let mut log: Vec<Diagnostic> = Vec::new();
    log.push(diagnostic);
    assert(views(log@) =~= seq![diagnostic@]);
    log
}

/// Ends the invocation with `status`.
fn exit_with(status: i32, log: Vec<Diagnostic>) -> (step: Step)
    ensures
        step@ == step_to_exit(status, views(log@)),
{
    Step { stage: Stage::Done, action: Action::Exit { status }, log }
}

/// Hands the image builder its request for an image at `output`.
fn enter_build(config: &Config, output: PathBuf) -> (step: Step)
    ensures
        step@ == step_into_build(*config, output),
{
    let plan = resolve_mounts(&config.files_to_mount);
    let request = BuildRequest {
        kernel: config.input_file.clone(),
        boot: config.boot_settings(),
        mounts: plan.entries,
        firmware: Firmware::of_flag(config.uefi),
        output: output.clone(),
    };
    Step { stage: Stage::Building { output }, action: Action::Build(request), log: plan.defects }
}

/// Starts the emulator on the image at `artifact`.
fn enter_launch(
    config: &Config,
    artifact: PathBuf,
    firmware: Option<PathBuf>,
    log: Vec<Diagnostic>,
) -> (step: Step)
    ensures
        step@ == step_into_launch(*config, artifact, firmware, views(log@)),
{
    match text_of(&artifact) {
        Some(text) => {
            let arguments = emulator_arguments(
                firmware,
                text.as_str(),
                &config.args,
                &config.extra_args,
            );
            let request = LaunchRequest { program: config.qemu_path.clone(), arguments };
            Step { stage: Stage::Launching, action: Action::Launch(request), log }
        },
        None => Step { stage: Stage::Done, action: Action::Abort(artifact), log },
    }
}

/// Opens the run stage for the image at `artifact`.
fn enter_run(config: &Config, artifact: PathBuf) -> (step: Step)
    ensures
        step@ == step_into_run(*config, artifact),
{
    let log = only(Diagnostic::Running);
    if needs_firmware(config.uefi, config.no_ovmf) {
        Step {
            stage: Stage::LocatingFirmware { artifact },
            action: Action::LocateFirmware,
            log,
        }
    } else {
        enter_launch(config, artifact, None, log)
    }
}

/// Takes one step of the invocation.
///
/// Given the stage the invocation is in and the event the caller reports,
/// returns the stage it moves to, the action the caller is to take and the
/// diagnostics to show first. Returns `None` exactly where the stage does
/// not await the event; nothing has happened then.
pub fn advance(config: &Config, stage: Stage, event: Event) -> (step: Option<Step>)
    ensures
        step is Some <==> next_step(*config, stage, event) is Some,
        step matches Some(taken) ==> next_step(*config, stage, event) == Some(taken@),
{
    let firmware = Firmware::of_flag(config.uefi);
    match (stage, event) {
        (Stage::Idle, Event::Start) => {
            if config.command.builds() {
                Some(
                    Step {
                        stage: Stage::ProbingOutput,
                        action: Action::ProbeDirectory(config.out_dir.clone()),
                        log: only(Diagnostic::Building),
                    },
                )
            } else {
                Some(enter_run(config, config.input_file.clone()))
            }
        },
        (Stage::ProbingOutput, Event::DirectoryProbed { is_dir }) => {
            if needs_directory(&config.out_dir, is_dir) {
                Some(
                    Step {
                        stage: Stage::CreatingOutput,
                        action: Action::CreateDirectory(config.out_dir.clone()),
                        log: silent(),
                    },
                )
            } else {
                let output = get_output_path(
                    config.out_dir.clone(),
                    firmware.default_file_name(),
                    is_dir,
                    false,
                );
                Some(enter_build(config, output))
            }
        },
        (Stage::CreatingOutput, Event::DirectoryCreated { created }) => {
            let output = get_output_path(
                config.out_dir.clone(),
                firmware.default_file_name(),
                false,
                created,
            );
            Some(enter_build(config, output))
        },
        (Stage::Building { output }, Event::Built) => {
            if config.command.runs() {
                Some(enter_run(config, output))
            } else {
                Some(exit_with(EXIT_SUCCESS, silent()))
            }
        },
        (Stage::Building { output }, Event::BuildFailed(failure)) => {
            Some(exit_with(EXIT_FAILURE, failure.report()))
        },
        (Stage::LocatingFirmware { artifact }, Event::FirmwareLocated(located)) => {
            Some(enter_launch(config, artifact, Some(located), silent()))
        },
        (Stage::Launching, Event::EmulatorExited) => Some(exit_with(EXIT_SUCCESS, silent())),
        (Stage::Launching, Event::SpawnFailed(text)) => {
            Some(exit_with(EXIT_FAILURE, only(Diagnostic::SpawnFailed(text))))
        },
        (Stage::Launching, Event::WaitFailed(text)) => {
            Some(exit_with(EXIT_FAILURE, only(Diagnostic::WaitFailed(text))))
        },
        _ => None,
    }
}

/// How far an invocation has come.
pub open spec fn progress(stage: Stage) -> nat {
    match stage {
        Stage::Idle => 0,
        Stage::ProbingOutput => 1,
        Stage::CreatingOutput => 2,
        Stage::Building { .. } => 3,
        Stage::LocatingFirmware { .. } => 4,
        Stage::Launching => 5,
        Stage::Done => 6,
    }
}

/// Whether `path` is one of the two paths that the output hint can resolve
/// to: the hint itself, or the default image name inside it.
pub open spec fn is_output_of(config: Config, path: PathBuf) -> bool {
    let image_name = Firmware::spec_of_flag(config.uefi).spec_default_file_name();
    path == config.out_dir || path == path_join(config.out_dir, image_name)
}

/// Whether an invocation of `config` can be in `stage`.
///
/// The build stages occur only in a mode that builds and the run stages only
/// in a mode that runs. The directory is being created only for a hint with
/// a trailing separator. The image being built is at a path the hint
/// resolves to. The image about to be run is the one just built in a mode
/// that builds, and the input file otherwise.
pub open spec fn stage_fits(config: Config, stage: Stage) -> bool {
    match stage {
        Stage::Idle => true,
        Stage::ProbingOutput => config.command.spec_builds(),
        Stage::CreatingOutput => config.command.spec_builds() && has_trailing_separator(
            config.out_dir,
        ),
        Stage::Building { output } => config.command.spec_builds() && is_output_of(
            config,
            output,
        ),
        Stage::LocatingFirmware { artifact } => {
            &&& config.command.spec_runs()
            &&& wants_firmware(config.uefi, config.no_ovmf)
            &&& if config.command.spec_builds() {
                is_output_of(config, artifact)
            } else {
                artifact == config.input_file
            }
        },
        Stage::Launching => config.command.spec_runs(),
        Stage::Done => true,
    }
}

/// The step that enters the build, after the caller has answered whether the
/// hint is a directory (`is_dir`) and, where the directory was then to be
/// created, whether that worked (`created`).
pub open spec fn step_after_probing(config: Config, is_dir: bool, created: bool) -> StepView {
    let probed = next_step(config, Stage::ProbingOutput, Event::DirectoryProbed { is_dir })->0;
    if probed.stage is CreatingOutput {
        next_step(config, probed.stage, Event::DirectoryCreated { created })->0
    } else {
        probed
    }
}

/// Every step moves the invocation forward, and leaves it in a stage that
/// fits the configuration if it was in one. So no stage is entered twice: the
/// image is built at most once and the emulator is started at most once, and
/// an invocation ends after at most six steps.
pub proof fn every_step_moves_forward(config: Config, stage: Stage, event: Event)
    requires
        next_step(config, stage, event) is Some,
    ensures
        progress(next_step(config, stage, event)->0.stage) > progress(stage),
        stage_fits(config, stage) ==> stage_fits(config, next_step(config, stage, event)->0.stage),
{
}

/// Each action belongs to one stage: the caller is asked to build exactly on
/// entering `Building`, to start the emulator exactly on entering
/// `Launching`, and the invocation is over exactly when it is told to exit or
/// to give up. An image is built for the one firmware interface that the
/// configuration selects.
pub proof fn actions_match_stages(config: Config, stage: Stage, event: Event)
    requires
        next_step(config, stage, event) is Some,
    ensures
        ({
            let step = next_step(config, stage, event)->0;
            &&& step.action is ProbeDirectory <==> step.stage is ProbingOutput
            &&& step.action is CreateDirectory <==> step.stage is CreatingOutput
            &&& step.action is Build <==> step.stage is Building
            &&& step.action is LocateFirmware <==> step.stage is LocatingFirmware
            &&& step.action is Launch <==> step.stage is Launching
            &&& (step.action is Exit || step.action is Abort) <==> step.stage is Done
            &&& step.action matches ActionView::Build(request) ==> {
                &&& step.stage == Stage::Building { output: request.output }
                &&& request.firmware == Firmware::spec_of_flag(config.uefi)
                &&& request.kernel == config.input_file
                &&& request.boot == config.spec_boot_settings()
            }
        }),
{
}

/// Files that cannot be mounted never hold a build up: whatever the files to
/// mount are like, the build is entered with a request that mounts exactly
/// the files that have a name, in their order, and the others are reported
/// as warnings.
pub proof fn unmountable_files_do_not_stop_the_build(config: Config, is_dir: bool, created: bool)
    ensures
        ({
            let step = step_after_probing(config, is_dir, created);
            &&& step.action matches ActionView::Build(request) && request.mounts == mount_entries(
                config.files_to_mount@,
            )
            &&& step.log == mount_defects(config.files_to_mount@)
            &&& forall|i: int|
                0 <= i < step.log.len() ==> (#[trigger] step.log[i]).severity()
                    == Severity::Warn
        }),
{
    let step = step_after_probing(config, is_dir, created);
    let files = config.files_to_mount@;
    assert forall|i: int| 0 <= i < mount_defects(files).len() implies (#[trigger] mount_defects(
        files,
    )[i]).severity() == Severity::Warn by {
        defects_are_warnings(files, i);
    }
}

/// The image goes where the output hint resolves to: once the caller has
/// answered the questions about the hint, the build is entered for the path
/// that `output_path` gives for those answers.
pub proof fn build_writes_to_the_resolved_path(config: Config, is_dir: bool, created: bool)
    ensures
        step_after_probing(config, is_dir, created) == step_into_build(
            config,
            output_path(
                config.out_dir,
                Firmware::spec_of_flag(config.uefi).spec_default_file_name(),
                is_dir,
                created,
            ),
        ),
{
}

/// In the mode that builds and then runs, the image that is run is the one
/// that was just built. After a successful build to `output` the run stage
/// is opened for `output`; the emulator is then started on it, at once or as
/// soon as the firmware image is located, with the drive naming the text of
/// `output`.
pub proof fn build_then_run_launches_the_built_image(
    config: Config,
    output: PathBuf,
    firmware: PathBuf,
)
    requires
        config.command == SubCommand::BuildRun,
    ensures
        ({
            let built = next_step(config, Stage::Building { output }, Event::Built);
            &&& built == Some(step_into_run(config, output))
            &&& built->0.log == seq![DiagnosticView::Running]
            &&& !wants_firmware(config.uefi, config.no_ovmf) ==> built->0 == step_into_launch(
                config,
                output,
                None,
                seq![DiagnosticView::Running],
            )
            &&& wants_firmware(config.uefi, config.no_ovmf) ==> {
                &&& built->0.stage == Stage::LocatingFirmware { artifact: output }
                &&& next_step(config, built->0.stage, Event::FirmwareLocated(firmware)) == Some(
                    step_into_launch(config, output, Some(firmware), seq![]),
                )
            }
        }),
{
}

/// In the mode that only runs, nothing is built and the input file is what
/// the emulator gets. The first step opens the run stage for the input file;
/// the emulator is then started on it, at once or as soon as the firmware
/// image is located. No step of such an invocation asks about the output
/// hint or for a build.
pub proof fn run_alone_launches_the_input_file(
    config: Config,
    firmware: PathBuf,
    stage: Stage,
    event: Event,
)
    requires
        config.command == SubCommand::Run,
    ensures
        ({
            let first = next_step(config, Stage::Idle, Event::Start);
            &&& first == Some(step_into_run(config, config.input_file))
            &&& !wants_firmware(config.uefi, config.no_ovmf) ==> first->0 == step_into_launch(
                config,
                config.input_file,
                None,
                seq![DiagnosticView::Running],
            )
            &&& wants_firmware(config.uefi, config.no_ovmf) ==> {
                &&& first->0.stage == Stage::LocatingFirmware { artifact: config.input_file }
                &&& next_step(config, first->0.stage, Event::FirmwareLocated(firmware)) == Some(
                    step_into_launch(config, config.input_file, Some(firmware), seq![]),
                )
            }
        }),
        stage_fits(config, stage) ==> (next_step(config, stage, event) matches Some(step) ==> {
            &&& !(step.action is ProbeDirectory)
            &&& !(step.action is CreateDirectory)
            &&& !(step.action is Build)
        }),
{
}

/// What starting the emulator on an image means: the emulator named by the
/// configuration is started with the drive option naming the text of the
/// image's path, as it is; and an image is given up on only where its path
/// has no text.
pub proof fn launch_names_the_image(
    config: Config,
    artifact: PathBuf,
    firmware: Option<PathBuf>,
    log: Seq<DiagnosticView>,
)
    ensures
        ({
            let step = step_into_launch(config, artifact, firmware, log);
            let drive_at: int = if firmware is Some {
                2
            } else {
                0
            };
            &&& step.action is Launch <==> path_text(artifact) is Some
            &&& step.action is Abort <==> path_text(artifact) is None
            &&& step.action matches ActionView::Launch(request) ==> {
                &&& request.program == config.qemu_path@
                &&& request.arguments[drive_at] == ArgumentView::Text("-drive"@)
                &&& request.arguments[drive_at + 1] == ArgumentView::Text(
                    drive_value(path_text(artifact)->0),
                )
            }
        }),
{
    if path_text(artifact) is Some {
        arguments_come_in_order(
            firmware,
            path_text(artifact)->0,
            views(config.args@),
            views(config.extra_args@),
        );
    }
}

/// How an invocation ends. A failed build, an emulator that cannot be
/// started and a failed wait each end it with status 1 and an error that
/// carries the message of what failed; a failed build also lists its causes.
/// A finished build in the mode that only builds, and an emulator that has
/// exited, whatever its own status, end it with status 0 and nothing to
/// report.
pub proof fn failures_exit_with_status_one(
    config: Config,
    output: PathBuf,
    failure: BuildFailure,
    text: String,
)
    ensures
        next_step(config, Stage::Building { output }, Event::BuildFailed(failure)) == Some(
            step_to_exit(
                1,
                seq![DiagnosticView::BuildFailed(failure.message@)] + views(
                    failure.causes@,
                ).map_values(|cause: Seq<char>| DiagnosticView::CausedBy(cause)),
            ),
        ),
        next_step(config, Stage::Launching, Event::SpawnFailed(text)) == Some(
            step_to_exit(1, seq![DiagnosticView::SpawnFailed(text@)]),
        ),
        next_step(config, Stage::Launching, Event::WaitFailed(text)) == Some(
            step_to_exit(1, seq![DiagnosticView::WaitFailed(text@)]),
        ),
        DiagnosticView::SpawnFailed(text@).severity() == Severity::Error,
        DiagnosticView::WaitFailed(text@).severity() == Severity::Error,
        DiagnosticView::BuildFailed(failure.message@).severity() == Severity::Error,
        next_step(config, Stage::Launching, Event::EmulatorExited) == Some(
            step_to_exit(0, seq![]),
        ),
        config.command == SubCommand::Build ==> next_step(
            config,
            Stage::Building { output },
            Event::Built,
        ) == Some(step_to_exit(0, seq![])),
{
}

/// How often the caller is asked to build an image when an invocation that
/// stands in `stage` is fed `events` in order, up to the first event that
/// the stage it has reached does not await.
pub open spec fn builds_in(config: Config, stage: Stage, events: Seq<Event>) -> nat
    decreases events.len(),
{
    if events.len() == 0 {
        0
    } else {
        match next_step(config, stage, events.first()) {
            Some(step) => (if step.action is Build {
                1nat
            } else {
                0nat
            }) + builds_in(config, step.stage, events.drop_first()),
            None => 0,
        }
    }
}

/// How often the caller is asked to start the emulator when an invocation
/// that stands in `stage` is fed `events` in order, up to the first event
/// that the stage it has reached does not await.
pub open spec fn launches_in(config: Config, stage: Stage, events: Seq<Event>) -> nat
    decreases events.len(),
{
    if events.len() == 0 {
        0
    } else {
        match next_step(config, stage, events.first()) {
            Some(step) => (if step.action is Launch {
                1nat
            } else {
                0nat
            }) + launches_in(config, step.stage, events.drop_first()),
            None => 0,
        }
    }
}

/// From any stage on, an image is built at most once and the emulator is
/// started at most once; not at all once the stage for it is reached or
/// passed, and not at all in a mode that leaves the stage out.
pub proof fn lemma_builds_and_launches_from(config: Config, stage: Stage, events: Seq<Event>)
    ensures
        builds_in(config, stage, events) <= 1,
        launches_in(config, stage, events) <= 1,
        progress(stage) >= progress(Stage::Building { output: config.out_dir }) ==> builds_in(
            config,
            stage,
            events,
        ) == 0,
        progress(stage) >= progress(Stage::Launching) ==> launches_in(config, stage, events)
            == 0,
        stage_fits(config, stage) && !config.command.spec_builds() ==> builds_in(
            config,
            stage,
            events,
        ) == 0,
        stage_fits(config, stage) && !config.command.spec_runs() ==> launches_in(
            config,
            stage,
            events,
        ) == 0,
    decreases events.len(),
{
    if events.len() > 0 {
        match next_step(config, stage, events.first()) {
            Some(step) => {
                every_step_moves_forward(config, stage, events.first());
                actions_match_stages(config, stage, events.first());
                lemma_builds_and_launches_from(config, step.stage, events.drop_first());
            },
            None => {},
        }
    }
}

/// Whatever the caller reports, and in whatever order, an invocation asks
/// for at most one image to be built and starts the emulator at most once.
/// In the mode that only runs, no image is built; in the mode that only
/// builds, the emulator is not started.
pub proof fn an_invocation_builds_and_launches_at_most_once(config: Config, events: Seq<Event>)
    ensures
        builds_in(config, Stage::Idle, events) <= 1,
        launches_in(config, Stage::Idle, events) <= 1,
        config.command == SubCommand::Run ==> builds_in(config, Stage::Idle, events) == 0,
        config.command == SubCommand::Build ==> launches_in(config, Stage::Idle, events) == 0,
{
    lemma_builds_and_launches_from(config, Stage::Idle, events);
}

} // verus!
