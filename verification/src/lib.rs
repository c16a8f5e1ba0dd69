//! A small leveled logging core: a configuration value object, severity
//! filtering, fixed-shape message formatting, colour-coded terminal
//! rendering, and a set-once-until-released logger slot that fans each
//! accepted event out to the enabled sinks.

pub mod colour;
pub mod config;
pub mod format;
pub mod level;
pub mod logger;

pub use config::LogConfig;
pub use level::LogLevel;
pub use logger::init;
pub use logger::log_event;
pub use logger::release;
pub use logger::InitError;
pub use logger::LogOutput;
pub use logger::LogRecord;
pub use logger::LoggerSlot;
pub use logger::ReleaseError;
