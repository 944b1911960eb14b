//! The boot-time configuration that is baked into an image.
//!
//! `BootSettings` holds what an invocation asks of the bootloader, as plain
//! values. `BootConfig`, `FrameBuffer` and the bootloader's own `LevelFilter`
//! are the types of the `bootloader-boot-config` crate that the image builder
//! consumes; the functions here produce them.

use crate::{Config, LevelFilter};
use bootloader_boot_config::LevelFilter as BootLevelFilter;
use bootloader_boot_config::{BootConfig, FrameBuffer};
use vstd::prelude::*;

verus! {

/// `bootloader_boot_config::LevelFilter`, with its six variants.
#[verifier::external_type_specification]
pub struct ExBootLevelFilter(BootLevelFilter);

/// `bootloader_boot_config::FrameBuffer`, with its fields.
#[verifier::external_type_specification]
pub struct ExFrameBuffer(FrameBuffer);

/// `bootloader_boot_config::BootConfig`, with its fields.
#[verifier::external_type_specification]
pub struct ExBootConfig(BootConfig);

/// `<BootConfig as Default>::default`: no frame buffer demands, the most
/// verbose log level, both log sinks on.
pub assume_specification[ <BootConfig as Default>::default ]() -> (config: BootConfig)
    ensures
        config.frame_buffer.minimum_framebuffer_height is None,
        config.frame_buffer.minimum_framebuffer_width is None,
        config.log_level == BootLevelFilter::Trace,
        config.frame_buffer_logging,
        config.serial_logging,
        config._test_sentinel == 0,
;

impl LevelFilter {
    /// The bootloader's level of the same name.
    pub open spec fn boot_level(self) -> BootLevelFilter {
        match self {
            LevelFilter::Off => BootLevelFilter::Off,
            LevelFilter::Trace => BootLevelFilter::Trace,
            LevelFilter::Debug => BootLevelFilter::Debug,
            LevelFilter::Info => BootLevelFilter::Info,
            LevelFilter::Warn => BootLevelFilter::Warn,
            LevelFilter::Error => BootLevelFilter::Error,
        }
    }

    /// The level that a level of the bootloader stands for.
    pub open spec fn of_boot_level(level: BootLevelFilter) -> LevelFilter {
        match level {
            BootLevelFilter::Off => LevelFilter::Off,
            BootLevelFilter::Trace => LevelFilter::Trace,
            BootLevelFilter::Debug => LevelFilter::Debug,
            BootLevelFilter::Info => LevelFilter::Info,
            BootLevelFilter::Warn => LevelFilter::Warn,
            BootLevelFilter::Error => LevelFilter::Error,
        }
    }

    /// The bootloader's level of the same name.
    pub fn to_bootloader(self) -> (level: bootloader_boot_config::LevelFilter)
        ensures
            level == self.boot_level(),
            LevelFilter::of_boot_level(level) == self,
    {
        match self {
            LevelFilter::Off => BootLevelFilter::Off,
            LevelFilter::Trace => BootLevelFilter::Trace,
            LevelFilter::Debug => BootLevelFilter::Debug,
            LevelFilter::Info => BootLevelFilter::Info,
            LevelFilter::Warn => BootLevelFilter::Warn,
            LevelFilter::Error => BootLevelFilter::Error,
        }
    }
}

/// The mapping of log levels is a bijection: mapping a level to the
/// bootloader's and reading the result back gives the level again, and so
/// does reading a level of the bootloader and mapping what was read. Hence
/// every level has exactly one counterpart on the other side.
pub proof fn level_mapping_is_a_bijection(level: LevelFilter, boot: BootLevelFilter)
    ensures
        LevelFilter::of_boot_level(level.boot_level()) == level,
        LevelFilter::of_boot_level(boot).boot_level() == boot,
        level.boot_level() == boot <==> level == LevelFilter::of_boot_level(boot),
{
}

/// What an invocation asks of the bootloader at boot time.
#[derive(Clone, Copy, Debug, PartialEq, Eq, Structural)]
pub struct BootSettings {
    /// Minimum frame buffer height, if one is asked for.
    pub minimum_framebuffer_height: Option<u64>,
    /// Minimum frame buffer width, if one is asked for.
    pub minimum_framebuffer_width: Option<u64>,
    /// Least severe level that is still logged.
    pub log_level: LevelFilter,
    /// Whether log messages go to the frame buffer.
    pub frame_buffer_logging: bool,
    /// Whether log messages go to the serial port.
    pub serial_logging: bool,
}

impl BootSettings {
    /// The settings that a boot configuration holds.
    pub open spec fn of_boot_config(config: BootConfig) -> BootSettings {
        BootSettings {
            minimum_framebuffer_height: config.frame_buffer.minimum_framebuffer_height,
            minimum_framebuffer_width: config.frame_buffer.minimum_framebuffer_width,
            log_level: LevelFilter::of_boot_level(config.log_level),
            frame_buffer_logging: config.frame_buffer_logging,
            serial_logging: config.serial_logging,
        }
    }

    /// Builds the boot configuration that holds exactly these settings.
    pub fn to_boot_config(&self) -> (config: BootConfig)
        ensures
            BootSettings::of_boot_config(config) == *self,
            config.log_level == self.log_level.boot_level(),
            config._test_sentinel == 0,
    {
        let mut config = BootConfig::default();
        config.frame_buffer.minimum_framebuffer_height = self.minimum_framebuffer_height;
        config.frame_buffer.minimum_framebuffer_width = self.minimum_framebuffer_width;
        config.log_level = self.log_level.to_bootloader();
        config.frame_buffer_logging = self.frame_buffer_logging;
        config.serial_logging = self.serial_logging;
        config
    }
}

impl Config {
    /// The boot settings that the command line asks for.
    pub open spec fn spec_boot_settings(&self) -> BootSettings {
        BootSettings {
            minimum_framebuffer_height: self.minimum_framebuffer_height,
            minimum_framebuffer_width: self.minimum_framebuffer_width,
            log_level: self.log_level,
            frame_buffer_logging: self.frame_buffer_logging,
            serial_logging: self.serial_logging,
        }
    }

    /// Collects the boot settings from the command line, each as it was given.
    #[verifier::when_used_as_spec(spec_boot_settings)]
    pub fn boot_settings(&self) -> (settings: BootSettings)
        ensures
            settings == self.spec_boot_settings(),
    {
        BootSettings {
            minimum_framebuffer_height: self.minimum_framebuffer_height,
            minimum_framebuffer_width: self.minimum_framebuffer_width,
            log_level: self.log_level,
            frame_buffer_logging: self.frame_buffer_logging,
            serial_logging: self.serial_logging,
        }
    }
}

} // verus!
