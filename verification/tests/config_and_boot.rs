use bootloader_boot_config::LevelFilter as Boot;
use bootloader_linker::boot::BootSettings;
use bootloader_linker::{Config, Firmware, LevelFilter, SubCommand};
use std::path::PathBuf;

fn sample(command: SubCommand) -> Config {
    Config {
        command,
        input_file: PathBuf::from("kernel.elf"),
        uefi: false,
        out_dir: PathBuf::from("./"),
        qemu_path: String::from("qemu-system-x86_64"),
        files_to_mount: Vec::new(),
        no_ovmf: false,
        minimum_framebuffer_height: None,
        minimum_framebuffer_width: None,
        log_level: LevelFilter::Trace,
        frame_buffer_logging: false,
        serial_logging: false,
        args: Vec::new(),
        extra_args: Vec::new(),
    }
}

#[test]
fn build_mode_builds_and_does_not_run() {
    assert!(SubCommand::Build.builds());
    assert!(!SubCommand::Build.runs());
}

#[test]
fn run_mode_runs_and_does_not_build() {
    assert!(!SubCommand::Run.builds());
    assert!(SubCommand::Run.runs());
}

#[test]
fn build_run_mode_does_both() {
    assert!(SubCommand::BuildRun.builds());
    assert!(SubCommand::BuildRun.runs());
}

#[test]
fn every_mode_does_something() {
    for mode in [SubCommand::Build, SubCommand::Run, SubCommand::BuildRun] {
        assert!(mode.builds() || mode.runs());
    }
}

#[test]
fn levels_map_by_name() {
    assert_eq!(LevelFilter::Off.to_bootloader(), Boot::Off);
    assert_eq!(LevelFilter::Trace.to_bootloader(), Boot::Trace);
    assert_eq!(LevelFilter::Debug.to_bootloader(), Boot::Debug);
    assert_eq!(LevelFilter::Info.to_bootloader(), Boot::Info);
    assert_eq!(LevelFilter::Warn.to_bootloader(), Boot::Warn);
    assert_eq!(LevelFilter::Error.to_bootloader(), Boot::Error);
}

#[test]
fn level_mapping_hits_every_bootloader_level_once() {
    let levels = [
        LevelFilter::Off,
        LevelFilter::Trace,
        LevelFilter::Debug,
        LevelFilter::Info,
        LevelFilter::Warn,
        LevelFilter::Error,
    ];
    let mapped: Vec<bootloader_boot_config::LevelFilter> =
        levels.iter().map(|level| level.to_bootloader()).collect();
    for (i, a) in mapped.iter().enumerate() {
        for (j, b) in mapped.iter().enumerate() {
            assert_eq!(a == b, i == j);
        }
    }
    assert_eq!(mapped.len(), 6);
}

#[test]
fn boot_settings_are_taken_from_the_configuration() {
    let mut config = sample(SubCommand::Build);
    config.minimum_framebuffer_height = Some(600);
    config.minimum_framebuffer_width = Some(800);
    config.log_level = LevelFilter::Warn;
    config.frame_buffer_logging = true;
    config.serial_logging = false;
    assert_eq!(
        config.boot_settings(),
        BootSettings {
            minimum_framebuffer_height: Some(600),
            minimum_framebuffer_width: Some(800),
            log_level: LevelFilter::Warn,
            frame_buffer_logging: true,
            serial_logging: false,
        }
    );
}

#[test]
fn boot_settings_of_a_bare_command_line() {
    let config = sample(SubCommand::Run);
    assert_eq!(
        config.boot_settings(),
        BootSettings {
            minimum_framebuffer_height: None,
            minimum_framebuffer_width: None,
            log_level: LevelFilter::Trace,
            frame_buffer_logging: false,
            serial_logging: false,
        }
    );
}

#[test]
fn boot_config_holds_the_settings() {
    let settings = BootSettings {
        minimum_framebuffer_height: Some(480),
        minimum_framebuffer_width: None,
        log_level: LevelFilter::Error,
        frame_buffer_logging: false,
        serial_logging: true,
    };
    let config = settings.to_boot_config();
    assert_eq!(config.frame_buffer.minimum_framebuffer_height, Some(480));
    assert_eq!(config.frame_buffer.minimum_framebuffer_width, None);
    assert_eq!(config.log_level, bootloader_boot_config::LevelFilter::Error);
    assert!(!config.frame_buffer_logging);
    assert!(config.serial_logging);
    assert_eq!(config._test_sentinel, 0);
}

#[test]
fn boot_config_overrides_every_default() {
    let settings = BootSettings {
        minimum_framebuffer_height: None,
        minimum_framebuffer_width: Some(1024),
        log_level: LevelFilter::Off,
        frame_buffer_logging: false,
        serial_logging: false,
    };
    let config = settings.to_boot_config();
    assert_eq!(config.frame_buffer.minimum_framebuffer_height, None);
    assert_eq!(config.frame_buffer.minimum_framebuffer_width, Some(1024));
    assert_eq!(config.log_level, bootloader_boot_config::LevelFilter::Off);
    assert!(!config.frame_buffer_logging);
    assert!(!config.serial_logging);
}

#[test]
fn firmware_follows_the_uefi_flag() {
    assert_eq!(Firmware::of_flag(true), Firmware::Uefi);
    assert_eq!(Firmware::of_flag(false), Firmware::Bios);
}

#[test]
fn default_image_names() {
    assert_eq!(Firmware::Uefi.default_file_name(), "uefi.img");
    assert_eq!(Firmware::Bios.default_file_name(), "bios.img");
}
