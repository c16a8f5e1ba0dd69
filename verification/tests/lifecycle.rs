//! Tests for the configuration defaults, the set-once lifecycle, and
//! the sink fan-out.

use ion_log::logger::debug;
use ion_log::logger::info;
use ion_log::logger::trace;
use ion_log::logger::error;
use ion_log::logger::warn;
use ion_log::init;
use ion_log::log_event;
use ion_log::release;
use ion_log::InitError;
use ion_log::LogConfig;
use ion_log::LogLevel;
use ion_log::LogRecord;
use ion_log::LoggerSlot;
use ion_log::ReleaseError;

#[test]
fn default_config_values() {
    let config = LogConfig::new();
    assert!(config.log_to_io);
    assert!(!config.log_to_file);
    assert_eq!(config.log_output_path, "");
    assert!(config.coloured_output);
    assert_eq!(config.max_log_level, LogLevel::Trace);
}

#[test]
fn default_trait_matches_new() {
    let config: LogConfig = Default::default();
    assert!(config.log_to_io);
    assert!(!config.log_to_file);
    assert_eq!(config.log_output_path, "");
    assert!(config.coloured_output);
    assert_eq!(config.max_log_level, LogLevel::Trace);
}

#[test]
fn init_twice_fails_and_sink_stays_active() {
    let mut slot = LoggerSlot::new();
    let config = LogConfig::new();
    assert!(init(&mut slot, &config, false).is_ok());
    let second = init(&mut slot, &config, false);
    assert_eq!(second, Err(InitError::AlreadyInitialized));
    // The originally installed sink keeps receiving events.
    let out = error(&slot, "m", 1, "still here");
    assert!(out.terminal.is_some());
    assert!(release(&mut slot).is_ok());
}

#[test]
fn init_fails_when_file_cannot_be_opened() {
    let mut slot = LoggerSlot::new();
    let mut config = LogConfig::new();
    config.log_to_file = true;
    config.log_output_path = String::from("log.txt");
    let r = init(&mut slot, &config, false);
    assert_eq!(r, Err(InitError::FileOpenFailed));
    // Nothing was installed: events are silently dropped.
    assert!(!slot.is_installed());
    let out = error(&slot, "m", 1, "dropped");
    assert!(out.terminal.is_none());
    assert!(out.file.is_none());
}

#[test]
fn release_without_init_fails() {
    let mut slot = LoggerSlot::new();
    assert_eq!(release(&mut slot), Err(ReleaseError::NotInitialized));
}

#[test]
fn release_then_reinit_succeeds() {
    let mut slot = LoggerSlot::new();
    let config = LogConfig::new();
    assert!(init(&mut slot, &config, false).is_ok());
    assert!(release(&mut slot).is_ok());
    assert_eq!(release(&mut slot), Err(ReleaseError::NotInitialized));
    let mut fresh = LogConfig::new();
    fresh.max_log_level = LogLevel::Warn;
    assert!(init(&mut slot, &fresh, false).is_ok());
    assert!(release(&mut slot).is_ok());
}

#[test]
fn no_logger_drops_events() {
    let slot = LoggerSlot::new();
    let record = LogRecord {
        level: LogLevel::Error,
        module: String::from("m"),
        line: 1,
        message: String::from("nobody listens"),
    };
    let out = log_event(&slot, &record);
    assert!(out.terminal.is_none());
    assert!(out.file.is_none());
}

#[test]
fn file_sink_scenario() {
    // file sink on, terminal sink off, floor Info: the debug event is
    // suppressed and the file receives exactly one line.
    let mut slot = LoggerSlot::new();
    let mut config = LogConfig::new();
    config.log_to_file = true;
    config.log_to_io = false;
    config.log_output_path = String::from("log.txt");
    config.max_log_level = LogLevel::Info;
    assert!(init(&mut slot, &config, true).is_ok());

    let mut file_contents = String::new();
    let out1 = debug(&slot, "app::main", 42, "hello");
    assert!(out1.terminal.is_none());
    assert!(out1.file.is_none());
    if let Some(payload) = out1.file {
        file_contents.push_str(&payload);
    }
    let out2 = warn(&slot, "app::main", 42, "hello");
    assert!(out2.terminal.is_none());
    if let Some(payload) = out2.file {
        file_contents.push_str(&payload);
    }
    assert!(release(&mut slot).is_ok());
    assert_eq!(file_contents, "[app::main - 42] WARN: hello\n");
}

#[test]
fn terminal_plain_scenario() {
    // terminal sink on, file sink off, colour off, floor Trace: one
    // plain line goes to standard output and nothing to any file.
    let mut slot = LoggerSlot::new();
    let mut config = LogConfig::new();
    config.coloured_output = false;
    config.max_log_level = LogLevel::Trace;
    assert!(init(&mut slot, &config, false).is_ok());
    let out = error(&slot, "app::main", 7, "boom");
    assert_eq!(out.terminal, Some(String::from("[app::main - 7] ERROR: boom\n")));
    assert!(out.file.is_none());
    assert!(release(&mut slot).is_ok());
}

#[test]
fn file_payload_never_coloured() {
    // Both sinks on with coloured output: the terminal line is
    // colour-wrapped, the file line is the plain bytes with no ANSI
    // escape, whatever the colour setting.
    let mut slot = LoggerSlot::new();
    let mut config = LogConfig::new();
    config.log_to_file = true;
    config.log_output_path = String::from("log.txt");
    config.coloured_output = true;
    assert!(init(&mut slot, &config, true).is_ok());
    let out = error(&slot, "app::main", 9, "boom");
    let file = out.file.expect("file sink is enabled");
    assert_eq!(file, "[app::main - 9] ERROR: boom\n");
    assert!(!file.contains('\u{1b}'));
    let terminal = out.terminal.expect("terminal sink is enabled");
    assert_eq!(terminal, format!("\u{1b}[31m{}\u{1b}[0m", file));
    assert!(release(&mut slot).is_ok());
}

#[test]
fn logger_keeps_private_config_copy() {
    let mut slot = LoggerSlot::new();
    let mut config = LogConfig::new();
    config.max_log_level = LogLevel::Trace;
    config.coloured_output = false;
    assert!(init(&mut slot, &config, false).is_ok());
    // Later mutation of the caller's configuration has no effect.
    config.max_log_level = LogLevel::Error;
    config.log_to_io = false;
    let out = debug(&slot, "m", 3, "still passes");
    assert_eq!(out.terminal, Some(String::from("[m - 3] DEBUG: still passes\n")));
    assert!(release(&mut slot).is_ok());
}

#[test]
fn error_messages_describe_the_failure() {
    assert_eq!(
        InitError::AlreadyInitialized.message(),
        "a logger is already installed"
    );
    assert_eq!(
        InitError::FileOpenFailed.message(),
        "the log output file could not be opened"
    );
    assert_eq!(ReleaseError::NotInitialized.message(), "no logger is installed");
}

#[test]
fn entry_points_tag_levels() {
    let mut slot = LoggerSlot::new();
    let mut config = LogConfig::new();
    config.coloured_output = false;
    assert!(init(&mut slot, &config, false).is_ok());
    let t = trace(&slot, "m", 1, "a");
    assert_eq!(t.terminal, Some(String::from("[m - 1] TRACE: a\n")));
    let i = info(&slot, "m", 2, "b");
    assert_eq!(i.terminal, Some(String::from("[m - 2] INFO: b\n")));
    assert!(release(&mut slot).is_ok());
}

#[test]
fn config_duplicate_is_field_for_field() {
    let mut config = LogConfig::new();
    config.log_to_file = true;
    config.log_output_path = String::from("out.log");
    config.max_log_level = LogLevel::Warn;
    let copy = config.duplicate();
    assert_eq!(copy.log_to_io, config.log_to_io);
    assert_eq!(copy.log_to_file, config.log_to_file);
    assert_eq!(copy.log_output_path, config.log_output_path);
    assert_eq!(copy.coloured_output, config.coloured_output);
    assert_eq!(copy.max_log_level, config.max_log_level);
}
