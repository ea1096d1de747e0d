//! Tuning options of the storage engine and the rules that adjust them.

use vstd::prelude::*;
use vstd::string::StringExecFns;

verus! {

/// Verbosity of the storage engine's info log.
#[derive(Debug, Clone, Copy, PartialEq, Eq, Structural)]
pub enum LogVerbosity {
    Debug,
    Info,
    Warn,
    Error,
    Fatal,
    Header,
}

/// Algorithm used to compress the blocks of the database.
#[derive(Debug, Clone, Copy, PartialEq, Eq, Structural)]
pub enum CompressionType {
    Bz2,
    Lz4,
    Lz4hc,
    Snappy,
    Zlib,
    Zstd,
    Uncompressed,
}

/// Options for the database.
///
/// Every `Option` field left as `None` lets the storage engine pick its own value.
#[derive(Debug, Clone, Copy, PartialEq, Eq, Structural)]
#[non_exhaustive]
pub struct DbOptions {
    /// Number of files the database may keep open; `None` means unlimited.
    pub max_open_files: Option<i32>,
    /// Whether a missing database is created on start.
    pub create_if_missing: bool,
    /// Compression algorithm for the database blocks.
    pub compression_type: CompressionType,
    /// Maximal total size of the write-ahead log, in bytes.
    pub max_total_wal_size: Option<u64>,
    /// Verbosity of the info log.
    pub log_verbosity: Option<LogVerbosity>,
    /// Size after which a new info log file is started.
    pub max_log_file_size: Option<usize>,
    /// Number of info log files that are kept.
    pub keep_log_file_num: Option<usize>,
    /// Number of log files that are recycled; zero means none.
    pub recycle_log_file_num: Option<usize>,
}

impl DbOptions {
    /// Creates a new `DbOptions` object from its fields.
    pub fn new(
        max_open_files: Option<i32>,
        create_if_missing: bool,
        compression_type: CompressionType,
        max_total_wal_size: Option<u64>,
        log_verbosity: Option<LogVerbosity>,
        max_log_file_size: Option<usize>,
        keep_log_file_num: Option<usize>,
        recycle_log_file_num: Option<usize>,
    ) -> (r: Self)
        ensures
            r.max_open_files == max_open_files,
            r.create_if_missing == create_if_missing,
            r.compression_type == compression_type,
            r.max_total_wal_size == max_total_wal_size,
            r.log_verbosity == log_verbosity,
            r.max_log_file_size == max_log_file_size,
            r.keep_log_file_num == keep_log_file_num,
            r.recycle_log_file_num == recycle_log_file_num,
    {
        DbOptions {
            max_open_files,
            create_if_missing,
            compression_type,
            max_total_wal_size,
            log_verbosity,
            max_log_file_size,
            keep_log_file_num,
            recycle_log_file_num,
        }
    }

    /// The documented defaults: no limits, no compression, a missing
    /// database is created.
    pub open spec fn spec_default() -> DbOptions {
        DbOptions {
            max_open_files: Option::None,
            create_if_missing: true,
            compression_type: CompressionType::Uncompressed,
            max_total_wal_size: Option::None,
            log_verbosity: Option::None,
            max_log_file_size: Option::None,
            keep_log_file_num: Option::None,
            recycle_log_file_num: Option::None,
        }
    }
}

impl Default for DbOptions {
    fn default() -> (r: Self)
        ensures
            r == DbOptions::spec_default(),
    {
        DbOptions::new(
            Option::None,
            true,
            CompressionType::Uncompressed,
            Option::None,
            Option::None,
            Option::None,
            Option::None,
            Option::None,
        )
    }
}

/// Number of files the tuned database may keep open.
pub const MAX_OPEN_FILES: i32 = 256;

/// Maximal size of the tuned write-ahead log in bytes (1 MiB).
pub const MAX_TOTAL_WAL_SIZE: u64 = 1048576;

/// Log verbosity of the tuned database.
pub const DEFAULT_LOG_LEVEL: LogVerbosity = LogVerbosity::Warn;

/// Maximal size of a tuned info log file in bytes (10 MiB).
pub const MAX_LOG_FILE_SIZE: usize = 10485760;

/// Number of info log files the tuned database keeps.
pub const KEEP_LOG_FILE_NUM: usize = 10;

/// The value held by `o`, or `d` where it holds none.
pub open spec fn or_else<T>(o: Option<T>, d: T) -> T {
    match o {
        Option::Some(v) => v,
        Option::None => d,
    }
}

/// The number of recycled log files that a yes/no choice stands for.
pub open spec fn recycle_count(choice: Option<bool>) -> Option<usize> {
    match choice {
        Option::Some(b) => Option::Some(if b { 1usize } else { 0usize }),
        Option::None => Option::None,
    }
}

/// Options of the command that tunes a node's database settings.
///
/// An option left as `None` is replaced by the fixed tuning default.
#[non_exhaustive]
pub struct OptimizeConfig {
    /// Path to the node configuration file.
    pub node_config_file: String,
    /// Where the modified configuration goes; `None` overwrites the input file.
    pub output_file: Option<String>,
    /// Number of files the database may keep open (default 256).
    pub max_open_files: Option<i32>,
    /// Maximal size of the write-ahead log in bytes (default 1 MiB).
    pub max_total_wal_size: Option<u64>,
    /// Log verbosity (default `Warn`).
    pub log_level: Option<LogVerbosity>,
    /// Maximal size of a log file (default 10 MiB).
    pub max_log_file_size: Option<usize>,
    /// Number of log files to keep (default 10).
    pub keep_log_file_num: Option<usize>,
    /// Whether log files are recycled; `None` clears the setting.
    pub recycle_log_files: Option<bool>,
}

impl OptimizeConfig {
    /// Command options for the configuration file `node_config_file`, with
    /// every tuning option left to its default.
    pub fn new(node_config_file: String) -> (r: Self)
        ensures
            r.node_config_file@ == node_config_file@,
            r.output_file is None,
            r.max_open_files is None,
            r.max_total_wal_size is None,
            r.log_level is None,
            r.max_log_file_size is None,
            r.keep_log_file_num is None,
            r.recycle_log_files is None,
    {
        OptimizeConfig {
            node_config_file,
            output_file: Option::None,
            max_open_files: Option::None,
            max_total_wal_size: Option::None,
            log_level: Option::None,
            max_log_file_size: Option::None,
            keep_log_file_num: Option::None,
            recycle_log_files: Option::None,
        }
    }

    /// The database options after tuning `db` with these command options.
    pub open spec fn spec_tune(&self, db: DbOptions) -> DbOptions {
        DbOptions {
            max_open_files: Option::Some(or_else(self.max_open_files, MAX_OPEN_FILES)),
            max_total_wal_size: Option::Some(or_else(self.max_total_wal_size, MAX_TOTAL_WAL_SIZE)),
            log_verbosity: Option::Some(or_else(self.log_level, DEFAULT_LOG_LEVEL)),
            max_log_file_size: Option::Some(or_else(self.max_log_file_size, MAX_LOG_FILE_SIZE)),
            keep_log_file_num: Option::Some(or_else(self.keep_log_file_num, KEEP_LOG_FILE_NUM)),
            recycle_log_file_num: recycle_count(self.recycle_log_files),
            ..db
        }
    }

    /// Tunes the database options `db`: every tuning option takes the value
    /// given on the command line, or its fixed default; the rest of `db` is kept.
    pub fn tune(&self, db: DbOptions) -> (r: DbOptions)
        ensures
            r == self.spec_tune(db),
    {
        let max_open_files = match self.max_open_files {
            Option::Some(v) => v,
            Option::None => MAX_OPEN_FILES,
        };
        let max_total_wal_size = match self.max_total_wal_size {
            Option::Some(v) => v,
            Option::None => MAX_TOTAL_WAL_SIZE,
        };
        let log_verbosity = match self.log_level {
            Option::Some(v) => v,
            Option::None => DEFAULT_LOG_LEVEL,
        };
        let max_log_file_size = match self.max_log_file_size {
            Option::Some(v) => v,
            Option::None => MAX_LOG_FILE_SIZE,
        };
        let keep_log_file_num = match self.keep_log_file_num {
            Option::Some(v) => v,
            Option::None => KEEP_LOG_FILE_NUM,
        };
        let recycle_log_file_num = match self.recycle_log_files {
            Option::Some(b) => Option::Some(if b { 1usize } else { 0usize }),
            Option::None => Option::None,
        };
        DbOptions {
            max_open_files: Option::Some(max_open_files),
            create_if_missing: db.create_if_missing,
            compression_type: db.compression_type,
            max_total_wal_size: Option::Some(max_total_wal_size),
            log_verbosity: Option::Some(log_verbosity),
            max_log_file_size: Option::Some(max_log_file_size),
            keep_log_file_num: Option::Some(keep_log_file_num),
            recycle_log_file_num,
        }
    }

    /// The file the tuned configuration is written to: the output file where
    /// one is given, else the input file.
    pub fn output_path(&self) -> (r: String)
        ensures
            r@ == match self.output_file {
                Option::Some(p) => p@,
                Option::None => self.node_config_file@,
            },
    {
        match &self.output_file {
            Option::Some(p) => p.clone(),
            Option::None => self.node_config_file.clone(),
        }
    }
}

/// Tuning twice with the same command options gives what tuning once gave.
pub proof fn lemma_tune_idempotent(cfg: OptimizeConfig, db: DbOptions)
    ensures
        cfg.spec_tune(cfg.spec_tune(db)) == cfg.spec_tune(db),
{
}

/// After tuning, every option given on the command line holds exactly the
/// given value, every tuning option left out holds its fixed default, and the
/// options that tuning does not touch are kept.
pub proof fn lemma_tune_fields(cfg: OptimizeConfig, db: DbOptions)
    ensures
        cfg.max_open_files is Some ==> cfg.spec_tune(db).max_open_files == cfg.max_open_files,
        cfg.max_open_files is None ==> cfg.spec_tune(db).max_open_files == Option::Some(MAX_OPEN_FILES),
        cfg.max_total_wal_size is Some ==> cfg.spec_tune(db).max_total_wal_size == cfg.max_total_wal_size,
        cfg.max_total_wal_size is None ==> cfg.spec_tune(db).max_total_wal_size == Option::Some(MAX_TOTAL_WAL_SIZE),
        cfg.log_level is Some ==> cfg.spec_tune(db).log_verbosity == cfg.log_level,
        cfg.log_level is None ==> cfg.spec_tune(db).log_verbosity == Option::Some(DEFAULT_LOG_LEVEL),
        cfg.max_log_file_size is Some ==> cfg.spec_tune(db).max_log_file_size == cfg.max_log_file_size,
        cfg.max_log_file_size is None ==> cfg.spec_tune(db).max_log_file_size == Option::Some(MAX_LOG_FILE_SIZE),
        cfg.keep_log_file_num is Some ==> cfg.spec_tune(db).keep_log_file_num == cfg.keep_log_file_num,
        cfg.keep_log_file_num is None ==> cfg.spec_tune(db).keep_log_file_num == Option::Some(KEEP_LOG_FILE_NUM),
        cfg.recycle_log_files == Option::Some(true) ==> cfg.spec_tune(db).recycle_log_file_num == Option::Some(1usize),
        cfg.recycle_log_files == Option::Some(false) ==> cfg.spec_tune(db).recycle_log_file_num == Option::Some(0usize),
        cfg.recycle_log_files is None ==> cfg.spec_tune(db).recycle_log_file_num is None,
        cfg.spec_tune(db).create_if_missing == db.create_if_missing,
        cfg.spec_tune(db).compression_type == db.compression_type,
{
}

/// A log level name that is not one of the known ones.
#[derive(Debug, Clone)]
pub struct ParseLogLevelError {
    /// The text that was given.
    pub input: String,
}

impl ParseLogLevelError {
    /// The error's message: `Unknown log level: ` and the text that was given.
    pub fn message(&self) -> (r: String)
        ensures
            r@ == "Unknown log level: "@ + self.input@,
    {
        String::from_str("Unknown log level: ").concat(self.input.as_str())
    }
}

/// The log level that a lower-case name stands for.
pub open spec fn log_level_named(name: Seq<char>) -> Option<LogVerbosity> {
    if name == "debug"@ {
        Option::Some(LogVerbosity::Debug)
    } else if name == "info"@ {
        Option::Some(LogVerbosity::Info)
    } else if name == "warn"@ {
        Option::Some(LogVerbosity::Warn)
    } else if name == "error"@ {
        Option::Some(LogVerbosity::Error)
    } else if name == "fatal"@ {
        Option::Some(LogVerbosity::Fatal)
    } else if name == "header"@ {
        Option::Some(LogVerbosity::Header)
    } else {
        Option::None
    }
}

/// What `str::to_lowercase` makes of a string.
pub uninterp spec fn lowercase_of(s: Seq<char>) -> Seq<char>;

/// Relies on `str::to_lowercase`: the result depends on the characters alone.
#[verifier::external_body]
fn to_lowercase(s: &str) -> (r: String)
    ensures
        r@ == lowercase_of(s@),
{
    s.to_lowercase()
}

/// The log level named by `name`, which must already be in lower case.
pub fn log_level_from_lowercase(name: &str) -> (r: Option<LogVerbosity>)
    ensures
        r == log_level_named(name@),
{
    let name = String::from_str(name);
    if name == String::from_str("debug") {
        Option::Some(LogVerbosity::Debug)
    } else if name == String::from_str("info") {
        Option::Some(LogVerbosity::Info)
    } else if name == String::from_str("warn") {
        Option::Some(LogVerbosity::Warn)
    } else if name == String::from_str("error") {
        Option::Some(LogVerbosity::Error)
    } else if name == String::from_str("fatal") {
        Option::Some(LogVerbosity::Fatal)
    } else if name == String::from_str("header") {
        Option::Some(LogVerbosity::Header)
    } else {
        Option::None
    }
}

/// Parses a log level name, in any letter case.
pub fn parse_log_level(src: &str) -> (r: Result<LogVerbosity, ParseLogLevelError>)
    ensures
        match r {
            Result::Ok(v) => log_level_named(lowercase_of(src@)) == Option::Some(v),
            Result::Err(e) => log_level_named(lowercase_of(src@)) is None && e.input@ == src@,
        },
{
    let lower = to_lowercase(src);
    match log_level_from_lowercase(lower.as_str()) {
        Option::Some(v) => Result::Ok(v),
        Option::None => Result::Err(ParseLogLevelError { input: String::from_str(src) }),
    }
}

} // verus!
