//! The logger configuration value object.

use vstd::prelude::*;

use crate::level::LogLevel;

verus! {

/// The mathematical model of a [`LogConfig`]: the same fields, with the
/// output path abstracted to its character sequence.
pub struct ConfigV {
    /// Whether to log to the terminal.
    pub log_to_io: bool,
    /// Whether to log to a file.
    pub log_to_file: bool,
    /// The log output file path.
    pub log_output_path: Seq<char>,
    /// Whether to use colour coded output.
    pub coloured_output: bool,
    /// The severity floor: events less severe than this are suppressed.
    pub max_log_level: LogLevel,
}

/// Stores the logger configuration.
#[derive(Debug)]
pub struct LogConfig {
    /// Whether to log to the terminal.
    pub log_to_io: bool,
    /// Whether to log to a file.
    pub log_to_file: bool,
    /// The log output file path.
    pub log_output_path: String,
    /// Whether to use colour coded output.
    pub coloured_output: bool,
    /// The severity floor: events less severe than this are suppressed.
    pub max_log_level: LogLevel,
}

impl View for LogConfig {
    type V = ConfigV;

    open spec fn view(&self) -> ConfigV {
        ConfigV {
            log_to_io: self.log_to_io,
            log_to_file: self.log_to_file,
            log_output_path: self.log_output_path@,
            coloured_output: self.coloured_output,
            max_log_level: self.max_log_level,
        }
    }
}

/// The model of the default configuration: terminal sink on, file sink
/// off, empty output path, coloured output on, and the most permissive
/// severity floor, so that every event passes.
pub open spec fn spec_default_config() -> ConfigV {
    ConfigV {
        log_to_io: true,
        log_to_file: false,
        log_output_path: Seq::empty(),
        coloured_output: true,
        max_log_level: LogLevel::Trace,
    }
}

impl LogConfig {
    /// Returns a new instance of `LogConfig` with the default settings.
    pub fn new() -> (r: Self)
        ensures
            r@ == spec_default_config(),
    {
        LogConfig {
            log_to_io: true,
            log_to_file: false,
            log_output_path: String::new(),
            coloured_output: true,
            max_log_level: LogLevel::Trace,
        }
    }

    /// Returns a field-for-field copy of this configuration.
    pub fn duplicate(&self) -> (r: Self)
        ensures
            r@ == self@,
    {
        LogConfig {
            log_to_io: self.log_to_io,
            log_to_file: self.log_to_file,
            log_output_path: self.log_output_path.clone(),
            coloured_output: self.coloured_output,
            max_log_level: self.max_log_level,
        }
    }
}

impl Default for LogConfig {
    fn default() -> (r: Self)
        ensures
            r@ == spec_default_config(),
    {
        LogConfig::new()
    }
}

} // verus!
