//! The logger itself: event dispatch and the set-once lifecycle.
//!
//! A [`LoggerSlot`] is the process-lifetime container that holds at
//! most one active [`Logger`]. [`init`] installs a logger built from a
//! configuration — a one-time, fallible operation — and [`release`]
//! detaches it again. Between the two, every event handed to
//! [`log_event`] is filtered by severity, formatted once, and fanned
//! out to the enabled sinks; the caller performs the actual writes
//! from the returned payloads.

use vstd::prelude::*;
use vstd::string::StringExecFns;

use crate::colour::format_log_colour;
use crate::colour::lemma_colourise_recoverable;
use crate::colour::spec_colour_prefix;
use crate::colour::spec_colour_reset;
use crate::colour::spec_colourise;
use crate::config::ConfigV;
use crate::config::LogConfig;
use crate::format::escape_free;
use crate::format::format_log_string;
use crate::format::lemma_format_escape_free;
use crate::format::spec_format;
use crate::level::accepts;
use crate::level::spec_accepts;
use crate::level::LogLevel;

verus! {

/// The mathematical model of a [`LogRecord`]: the same fields, with
/// the texts abstracted to their character sequences.
pub struct RecordV {
    /// The event's severity level.
    pub level: LogLevel,
    /// The module path of the originating call site.
    pub module: Seq<char>,
    /// The source line of the originating call site.
    pub line: u32,
    /// The fully-interpolated message text.
    pub message: Seq<char>,
}

/// One log event: a severity level, the originating call site, and the
/// already-interpolated message text.
#[derive(Debug)]
pub struct LogRecord {
    /// The event's severity level.
    pub level: LogLevel,
    /// The module path of the originating call site.
    pub module: String,
    /// The source line of the originating call site.
    pub line: u32,
    /// The fully-interpolated message text.
    pub message: String,
}

impl View for LogRecord {
    type V = RecordV;

    open spec fn view(&self) -> RecordV {
        RecordV {
            level: self.level,
            module: self.module@,
            line: self.line,
            message: self.message@,
        }
    }
}

/// The model of a record built from the given parts.
pub open spec fn record_v(level: LogLevel, module: Seq<char>, line: u32, message: Seq<char>) -> RecordV {
    RecordV { level, module, line, message }
}

/// The formatted line for a record.
pub open spec fn spec_formatted_record(rec: RecordV) -> Seq<char> {
    spec_format(rec.module, rec.line, rec.level, rec.message)
}

/// What the terminal sink receives for an event under a configuration:
/// nothing if the event is suppressed or the terminal sink is off;
/// otherwise the formatted line, colour-wrapped exactly when coloured
/// output is enabled.
pub open spec fn spec_terminal_output(cfg: ConfigV, rec: RecordV) -> Option<Seq<char>> {
    if spec_accepts(cfg.max_log_level, rec.level) && cfg.log_to_io {
        if cfg.coloured_output {
            Some(spec_colourise(rec.level, spec_formatted_record(rec)))
        } else {
            Some(spec_formatted_record(rec))
        }
    } else {
        None
    }
}

/// What the file sink receives for an event under a configuration:
/// nothing if the event is suppressed or the file sink is off;
/// otherwise the plain formatted line, never colour-wrapped.
pub open spec fn spec_file_output(cfg: ConfigV, rec: RecordV) -> Option<Seq<char>> {
    if spec_accepts(cfg.max_log_level, rec.level) && cfg.log_to_file {
        Some(spec_formatted_record(rec))
    } else {
        None
    }
}

/// The per-sink payloads produced for one event: what to print to the
/// terminal, and what to append to the log file. `None` means the sink
/// receives nothing for this event.
#[derive(Debug)]
pub struct LogOutput {
    /// The (possibly colour-wrapped) line for standard output.
    pub terminal: Option<String>,
    /// The plain line whose bytes go to the log file.
    pub file: Option<String>,
}

/// The installed logger: a private copy of the configuration it was
/// built from, so that later mutation of the caller's configuration
/// has no effect.
#[derive(Debug)]
pub struct Logger {
    config: LogConfig,
}

impl View for Logger {
    type V = ConfigV;

    closed spec fn view(&self) -> ConfigV {
        self.config@
    }
}

impl Logger {
    /// Builds a logger holding its own copy of the configuration.
    fn from_config(config: &LogConfig) -> (l: Logger)
        ensures
            l@ == config@,
    {
        Logger { config: config.duplicate() }
    }

    /// Returns whether an event at the given level would be processed:
    /// exactly the events at least as severe as the configured floor
    /// are. This check does no formatting work.
    pub fn enabled(&self, level: LogLevel) -> (r: bool)
        ensures
            r == spec_accepts(self@.max_log_level, level),
    {
        accepts(self.config.max_log_level, level)
    }

    /// Dispatches one event: filters it by severity, formats it, and
    /// returns the payload for each enabled sink. A suppressed event
    /// yields no payload at all; the file payload is always the plain
    /// formatted line, and the terminal payload is colour-wrapped
    /// exactly when coloured output is enabled.
    pub fn log(&self, record: &LogRecord) -> (r: LogOutput)
        ensures
            r.terminal.deep_view() == spec_terminal_output(self@, record@),
            r.file.deep_view() == spec_file_output(self@, record@),
    {
        if !self.enabled(record.level) {
            return LogOutput { terminal: None, file: None };
        }
        let line = format_log_string(
            record.module.as_str(),
            record.line,
            record.level,
            record.message.as_str(),
        );
        let terminal: Option<String> = if self.config.log_to_io {
            if self.config.coloured_output {
                Some(format_log_colour(record.level, line.as_str()))
            } else {
                Some(line.clone())
            }
        } else {
            None
        };
        let file: Option<String> = if self.config.log_to_file {
            Some(line)
        } else {
            None
        };
        LogOutput { terminal, file }
    }
}

/// Why an [`init`] call failed.
#[derive(Clone, Copy, Debug, PartialEq, Eq, Structural)]
pub enum InitError {
    /// A logger is already installed; it stays installed and active.
    AlreadyInitialized,
    /// The file sink was requested but the output file could not be
    /// created or opened.
    FileOpenFailed,
}

impl InitError {
    /// The descriptive text of this failure.
    pub open spec fn spec_message(self) -> Seq<char> {
        match self {
            InitError::AlreadyInitialized => "a logger is already installed"@,
            InitError::FileOpenFailed => "the log output file could not be opened"@,
        }
    }

    /// Returns the descriptive text of this failure.
    pub fn message(self) -> (r: &'static str)
        ensures
            r@ == self.spec_message(),
    {
        match self {
            InitError::AlreadyInitialized => "a logger is already installed",
            InitError::FileOpenFailed => "the log output file could not be opened",
        }
    }
}

/// Why a [`release`] call failed.
#[derive(Clone, Copy, Debug, PartialEq, Eq, Structural)]
pub enum ReleaseError {
    /// No logger is installed, so there is nothing to release.
    NotInitialized,
}

impl ReleaseError {
    /// The descriptive text of this failure.
    pub open spec fn spec_message(self) -> Seq<char> {
        "no logger is installed"@
    }

    /// Returns the descriptive text of this failure.
    pub fn message(self) -> (r: &'static str)
        ensures
            r@ == self.spec_message(),
    {
        "no logger is installed"
    }
}

/// The process-lifetime slot that holds at most one active logger.
/// Its model is the configuration of the installed logger, if any.
#[derive(Debug)]
pub struct LoggerSlot {
    active: Option<Logger>,
}

impl View for LoggerSlot {
    type V = Option<ConfigV>;

    closed spec fn view(&self) -> Option<ConfigV> {
        match self.active {
            Some(ref l) => Some(l@),
            None => None,
        }
    }
}

impl LoggerSlot {
    /// Returns an empty slot, with no logger installed.
    pub fn new() -> (s: Self)
        ensures
            s@ is None,
    {
        LoggerSlot { active: None }
    }

    /// Returns whether a logger is currently installed.
    pub fn is_installed(&self) -> (r: bool)
        ensures
            r == (self@ is Some),
    {
        self.active.is_some()
    }

    /// Returns whether an event at the given level would be processed
    /// by the installed logger: false when none is installed. This
    /// check does no formatting work, so a suppressed level costs only
    /// a comparison.
    pub fn enabled(&self, level: LogLevel) -> (r: bool)
        ensures
            r == (self@ matches Some(cfg) && spec_accepts(cfg.max_log_level, level)),
    {
        match &self.active {
            Some(logger) => logger.enabled(level),
            None => false,
        }
    }
}

impl Default for LoggerSlot {
    fn default() -> (s: Self)
        ensures
            s@ is None,
    {
        LoggerSlot::new()
    }
}

/// Installs a logger built from `config` into the slot.
///
/// The caller reports in `file_opened` whether the output file could
/// be created; it is consulted only when the configuration enables the
/// file sink. The call fails with [`InitError::AlreadyInitialized`]
/// when a logger is already installed — that logger stays installed
/// and active — and with [`InitError::FileOpenFailed`] when the file
/// sink is enabled but the file could not be opened. Either way no
/// effect is visible; on success the slot holds a logger with a
/// private copy of `config`.
pub fn init(slot: &mut LoggerSlot, config: &LogConfig, file_opened: bool) -> (r: Result<
    (),
    InitError,
>)
    ensures
        old(slot)@ is Some ==> r == Err::<(), InitError>(InitError::AlreadyInitialized)
            && final(slot)@ == old(slot)@,
        old(slot)@ is None && config.log_to_file && !file_opened ==> r == Err::<(), InitError>(
            InitError::FileOpenFailed,
        ) && final(slot)@ == old(slot)@,
        old(slot)@ is None && (!config.log_to_file || file_opened) ==> r == Ok::<(), InitError>(())
            && final(slot)@ == Some(config@),
{
    if slot.is_installed() {
        return Err(InitError::AlreadyInitialized);
    }
    if config.log_to_file && !file_opened {
        return Err(InitError::FileOpenFailed);
    }
    slot.active = Some(Logger::from_config(config));
    Ok(())
}

/// Detaches the installed logger from the slot.
///
/// Fails with [`ReleaseError::NotInitialized`] when no logger is
/// installed; that is an error condition to be signalled, not silently
/// ignored. On success the slot is empty again, so a subsequent
/// [`init`] may succeed.
pub fn release(slot: &mut LoggerSlot) -> (r: Result<(), ReleaseError>)
    ensures
        old(slot)@ is Some ==> r == Ok::<(), ReleaseError>(()) && final(slot)@ is None,
        old(slot)@ is None ==> r == Err::<(), ReleaseError>(ReleaseError::NotInitialized)
            && final(slot)@ == old(slot)@,
{
    if slot.is_installed() {
        slot.active = None;
        Ok(())
    } else {
        Err(ReleaseError::NotInitialized)
    }
}

/// What the terminal sink receives for an event routed through a slot:
/// nothing when no logger is installed (the event is silently
/// dropped), else what the installed logger's configuration yields.
pub open spec fn spec_slot_terminal(slot: Option<ConfigV>, rec: RecordV) -> Option<Seq<char>> {
    match slot {
        Some(cfg) => spec_terminal_output(cfg, rec),
        None => None,
    }
}

/// What the file sink receives for an event routed through a slot:
/// nothing when no logger is installed (the event is silently
/// dropped), else what the installed logger's configuration yields.
pub open spec fn spec_slot_file(slot: Option<ConfigV>, rec: RecordV) -> Option<Seq<char>> {
    match slot {
        Some(cfg) => spec_file_output(cfg, rec),
        None => None,
    }
}

/// Routes one event to the logger installed in the slot, if any, and
/// returns the payload for each sink. With no logger installed the
/// event is silently dropped: both payloads are `None`.
pub fn log_event(slot: &LoggerSlot, record: &LogRecord) -> (r: LogOutput)
    ensures
        r.terminal.deep_view() == spec_slot_terminal(slot@, record@),
        r.file.deep_view() == spec_slot_file(slot@, record@),
{
    match &slot.active {
        Some(logger) => logger.log(record),
        None => LogOutput { terminal: None, file: None },
    }
}

/// Builds the record for one event and routes it through the slot.
fn emit(slot: &LoggerSlot, level: LogLevel, module: &str, line: u32, message: &str) -> (r:
    LogOutput)
    ensures
        r.terminal.deep_view() == spec_slot_terminal(slot@, record_v(level, module@, line, message@)),
        r.file.deep_view() == spec_slot_file(slot@, record_v(level, module@, line, message@)),
{
    let record = LogRecord {
        level,
        module: String::from_str(module),
        line,
        message: String::from_str(message),
    };
    log_event(slot, &record)
}

/// Emits a trace-level event through the slot.
pub fn trace(slot: &LoggerSlot, module: &str, line: u32, message: &str) -> (r: LogOutput)
    ensures
        r.terminal.deep_view() == spec_slot_terminal(
            slot@,
            record_v(LogLevel::Trace, module@, line, message@),
        ),
        r.file.deep_view() == spec_slot_file(
            slot@,
            record_v(LogLevel::Trace, module@, line, message@),
        ),
{
    emit(slot, LogLevel::Trace, module, line, message)
}

/// Emits a debug-level event through the slot.
pub fn debug(slot: &LoggerSlot, module: &str, line: u32, message: &str) -> (r: LogOutput)
    ensures
        r.terminal.deep_view() == spec_slot_terminal(
            slot@,
            record_v(LogLevel::Debug, module@, line, message@),
        ),
        r.file.deep_view() == spec_slot_file(
            slot@,
            record_v(LogLevel::Debug, module@, line, message@),
        ),
{
    emit(slot, LogLevel::Debug, module, line, message)
}

/// Emits an info-level event through the slot.
pub fn info(slot: &LoggerSlot, module: &str, line: u32, message: &str) -> (r: LogOutput)
    ensures
        r.terminal.deep_view() == spec_slot_terminal(
            slot@,
            record_v(LogLevel::Info, module@, line, message@),
        ),
        r.file.deep_view() == spec_slot_file(
            slot@,
            record_v(LogLevel::Info, module@, line, message@),
        ),
{
    emit(slot, LogLevel::Info, module, line, message)
}

/// Emits a warn-level event through the slot.
pub fn warn(slot: &LoggerSlot, module: &str, line: u32, message: &str) -> (r: LogOutput)
    ensures
        r.terminal.deep_view() == spec_slot_terminal(
            slot@,
            record_v(LogLevel::Warn, module@, line, message@),
        ),
        r.file.deep_view() == spec_slot_file(
            slot@,
            record_v(LogLevel::Warn, module@, line, message@),
        ),
{
    emit(slot, LogLevel::Warn, module, line, message)
}

/// Emits an error-level event through the slot.
pub fn error(slot: &LoggerSlot, module: &str, line: u32, message: &str) -> (r: LogOutput)
    ensures
        r.terminal.deep_view() == spec_slot_terminal(
            slot@,
            record_v(LogLevel::Error, module@, line, message@),
        ),
        r.file.deep_view() == spec_slot_file(
            slot@,
            record_v(LogLevel::Error, module@, line, message@),
        ),
{
    emit(slot, LogLevel::Error, module, line, message)
}

/// A suppressed event is silent on every sink: when the event's level
/// is strictly less severe than the configured floor, neither the
/// terminal sink nor the file sink receives anything, whatever sinks
/// are enabled. Filtering is exact at the boundary: an event whose
/// level equals the floor is not suppressed.
pub proof fn lemma_suppressed_event_silent(cfg: ConfigV, rec: RecordV)
    requires
        !spec_accepts(cfg.max_log_level, rec.level),
    ensures
        spec_terminal_output(cfg, rec) is None,
        spec_file_output(cfg, rec) is None,
{
}

/// The file sink is plain: whenever it receives anything for an event,
/// it receives exactly the formatted line, byte for byte, whatever the
/// coloured-output setting; and that line holds no ANSI escape
/// character, provided the event's module path and message hold none.
pub proof fn lemma_file_output_plain(cfg: ConfigV, rec: RecordV)
    requires
        escape_free(rec.module),
        escape_free(rec.message),
    ensures
        spec_file_output(cfg, rec) matches Some(s) ==> s == spec_formatted_record(rec)
            && escape_free(s),
{
    if spec_file_output(cfg, rec) is Some {
        lemma_format_escape_free(rec.module, rec.line, rec.level, rec.message);
    }
}

/// With coloured output enabled, the terminal rendering of an accepted
/// event is the formatted line wrapped in the colour fixed for the
/// event's severity: it begins with that severity's colour prefix,
/// ends with the reset suffix, and stripping the two recovers exactly
/// the plain formatted line.
pub proof fn lemma_terminal_coloured_recoverable(cfg: ConfigV, rec: RecordV)
    requires
        cfg.coloured_output,
    ensures
        spec_terminal_output(cfg, rec) matches Some(t) ==> {
            &&& t == spec_colourise(rec.level, spec_formatted_record(rec))
            &&& t.len() == spec_formatted_record(rec).len() + 9
            &&& t.subrange(0, 5) == spec_colour_prefix(rec.level)
            &&& t.subrange(5, spec_formatted_record(rec).len() as int + 5)
                == spec_formatted_record(rec)
            &&& t.subrange(
                spec_formatted_record(rec).len() as int + 5,
                spec_formatted_record(rec).len() as int + 9,
            ) == spec_colour_reset()
        },
{
    if spec_terminal_output(cfg, rec) is Some {
        lemma_colourise_recoverable(rec.level, spec_formatted_record(rec));
    }
}

} // verus!
