//! Startup-time configuration: logging, storage choice, and the stored
//! credential for mutation endpoints.
//!
//! The surrounding program parses the command line and the environment
//! into these values once at process start.

use vstd::prelude::*;

verus! {

/// How log lines are rendered.
#[derive(Clone, Copy, Debug, PartialEq, Eq, Structural)]
pub enum LogFormat {
    Json,
    Plain,
    Pretty,
}

impl Default for LogFormat {
    fn default() -> (r: Self)
        ensures
            r == LogFormat::Plain,
    {
        LogFormat::Plain
    }
}

/// The logging configuration: a maximum level and a line format.
#[derive(Debug)]
pub struct Logging {
    pub log_level: String,
    pub log_format: LogFormat,
}

/// Which backend serves the facts.
#[derive(Clone, Copy, Debug, PartialEq, Eq, Structural)]
pub enum StorageType {
    Mocked,
    InMemory,
    Sqlx,
}

impl Default for StorageType {
    fn default() -> (r: Self)
        ensures
            r == StorageType::Sqlx,
    {
        StorageType::Sqlx
    }
}

/// The storage configuration: the backend choice and, for the SQL backend,
/// its connection string.
#[derive(Debug)]
pub struct Storage {
    pub storage_type: StorageType,
    pub storage_dsn: String,
}

/// The stored credential against which mutation requests are verified.
#[derive(Debug)]
pub struct Authentication {
    pub password_hash: String,
}

} // verus!
