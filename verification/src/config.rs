//! Configuration model for the pipeline.
//!
//! All values are plain data, constructed once at startup and then shared
//! read-only by every component. Directory locations are held as path text.

use vstd::prelude::*;
use vstd::string::StringExecFns;

verus! {

/// File processing settings: the availability gate's retry policy, the output
/// file extension, and the platform's "file locked" error signal.
#[derive(Debug, Clone)]
pub struct ProcessingConfig {
    /// Maximum number of availability checks before a file is given up on.
    pub max_retries: u32,
    /// Delay before the first retry, in milliseconds.
    pub initial_retry_delay_ms: u64,
    /// Upper bound on the backoff delay, in seconds.
    pub max_retry_delay_sec: u64,
    /// Extension appended to the input file's stem to name the output file.
    pub output_extension: String,
    /// OS error code that signals a file held open exclusively by its writer.
    pub file_locked_error_code: i32,
}

/// Input and output directory locations.
#[derive(Debug, Clone)]
pub struct DirectoryConfig {
    /// Directory watched for new files.
    pub input_dir: String,
    /// Directory that receives processed output files.
    pub output_dir: String,
}

/// Logging settings, consumed by the process that hosts the pipeline.
#[derive(Debug, Clone)]
pub struct LoggingConfig {
    /// Log level name (debug, info, warn, error).
    pub level: String,
    /// Directory that receives log files.
    pub log_dir: String,
    /// Base name of the log files.
    pub log_basename: String,
    /// Whether log lines are duplicated to standard output.
    pub duplicate_to_stdout: bool,
}

/// File watcher settings.
#[derive(Debug, Clone)]
pub struct WatcherConfig {
    /// Capacity of the bounded hand-off queue between detection and processing.
    pub channel_buffer_size: usize,
    /// Settle delay after a creation event before the file is handed on, in
    /// milliseconds.
    pub processing_delay_ms: u64,
    /// Whether directories are watched recursively.
    pub recursive: bool,
}

/// The whole application configuration.
#[derive(Debug, Clone)]
pub struct AppConfig {
    /// File processing configuration.
    pub processing: ProcessingConfig,
    /// Directory configuration.
    pub directories: DirectoryConfig,
    /// Logging configuration.
    pub logging: LoggingConfig,
    /// File watcher configuration.
    pub watcher: WatcherConfig,
}

impl Default for ProcessingConfig {
    fn default() -> (c: Self)
        ensures
            c.max_retries == 10,
            c.initial_retry_delay_ms == 100,
            c.max_retry_delay_sec == 2,
            c.output_extension@ == ".processed.txt"@,
            c.file_locked_error_code == 32,
    {
        ProcessingConfig {
            max_retries: 10,
            initial_retry_delay_ms: 100,
            max_retry_delay_sec: 2,
            output_extension: String::from_str(".processed.txt"),
            file_locked_error_code: 32,
        }
    }
}

impl Default for DirectoryConfig {
    fn default() -> (c: Self)
        ensures
            c.input_dir@ == "./input_files"@,
            c.output_dir@ == "./output_files"@,
    {
        DirectoryConfig {
            input_dir: String::from_str("./input_files"),
            output_dir: String::from_str("./output_files"),
        }
    }
}

impl Default for LoggingConfig {
    fn default() -> (c: Self)
        ensures
            c.level@ == "info"@,
            c.log_dir@ == "logs"@,
            c.log_basename@ == "app_log"@,
            c.duplicate_to_stdout == true,
    {
        LoggingConfig {
            level: String::from_str("info"),
            log_dir: String::from_str("logs"),
            log_basename: String::from_str("app_log"),
            duplicate_to_stdout: true,
        }
    }
}

impl Default for WatcherConfig {
    fn default() -> (c: Self)
        ensures
            c.channel_buffer_size == 32,
            c.processing_delay_ms == 50,
            c.recursive == true,
    {
        WatcherConfig { channel_buffer_size: 32, processing_delay_ms: 50, recursive: true }
    }
}

impl Default for AppConfig {
    fn default() -> (c: Self)
        ensures
            c.processing.max_retries == 10,
            c.processing.initial_retry_delay_ms == 100,
            c.processing.max_retry_delay_sec == 2,
            c.processing.output_extension@ == ".processed.txt"@,
            c.processing.file_locked_error_code == 32,
            c.directories.input_dir@ == "./input_files"@,
            c.directories.output_dir@ == "./output_files"@,
            c.logging.level@ == "info"@,
            c.logging.log_dir@ == "logs"@,
            c.logging.log_basename@ == "app_log"@,
            c.logging.duplicate_to_stdout == true,
            c.watcher.channel_buffer_size == 32,
            c.watcher.processing_delay_ms == 50,
            c.watcher.recursive == true,
    {
        AppConfig {
            processing: Default::default(),
            directories: Default::default(),
            logging: Default::default(),
            watcher: Default::default(),
        }
    }
}

impl AppConfig {
    /// The input directory location.
    pub fn input_dir(&self) -> (d: String)
        ensures
            d@ == self.directories.input_dir@,
    {
        self.directories.input_dir.clone()
    }

    /// The output directory location.
    pub fn output_dir(&self) -> (d: String)
        ensures
            d@ == self.directories.output_dir@,
    {
        self.directories.output_dir.clone()
    }

    /// The log directory location.
    pub fn log_dir(&self) -> (d: String)
        ensures
            d@ == self.logging.log_dir@,
    {
        self.logging.log_dir.clone()
    }
}

} // verus!
