//! The log of the application: which file it goes to and what its lines
//! look like. Writing the lines is left to the caller.

use crate::clock::{now_for_file_name, now_for_log_line};
use vstd::prelude::*;
use vstd::string::*;

verus! {

/// The name of the log file of a run that began at the time that `stamp`
/// writes.
pub open spec fn log_file_name(stamp: Seq<char>) -> Seq<char> {
    "selab_"@ + stamp + ".log"@
}

/// The line that reports `message` at the level `level`, written at the
/// time that `timestamp` writes, without its line feed.
pub open spec fn log_line(timestamp: Seq<char>, level: Seq<char>, message: Seq<char>) -> Seq<char> {
    "["@ + timestamp + "] ["@ + level + "] "@ + message
}

/// Says where the log goes and what goes into it.
#[derive(Debug, Clone)]
pub struct Logger {
    log_path: String,
}

impl Logger {
    /// The name of the log file of a run that begins now.
    pub fn file_name() -> (r: String)
        ensures
            exists|stamp: Seq<char>| r@ == #[trigger] log_file_name(stamp),
    {
        Self::file_name_at(now_for_file_name().as_str())
    }

    /// The name of the log file of a run that began at the time that
    /// `stamp` writes.
    pub fn file_name_at(stamp: &str) -> (r: String)
        ensures
            r@ == log_file_name(stamp@),
    {
        let mut r = String::from_str("selab_");
        r.append(stamp);
        r.append(".log");
        r
    }

    /// A logger for the file at `log_path`.
    pub fn new(log_path: String) -> (r: Self)
        ensures
            r.path() == log_path@,
    {
        Logger { log_path }
    }

    /// The path of the log file.
    pub closed spec fn path(&self) -> Seq<char> {
        self.log_path@
    }

    /// The line that reports `message` at the level `level`, written at the
    /// time that `timestamp` writes.
    pub fn line_at(timestamp: &str, level: &str, message: &str) -> (r: String)
        ensures
            r@ == log_line(timestamp@, level@, message@),
    {
        let mut r = String::from_str("[");
        r.append(timestamp);
        r.append("] [");
        r.append(level);
        r.append("] ");
        r.append(message);
        r
    }

    /// The line that reports `message` at the level `level` now.
    pub fn log(&self, level: &str, message: &str) -> (r: String)
        ensures
            exists|timestamp: Seq<char>| r@ == #[trigger] log_line(timestamp, level@, message@),
    {
        Self::line_at(now_for_log_line().as_str(), level, message)
    }

    /// The line that reports `message` as information.
    pub fn info(&self, message: &str) -> (r: String)
        ensures
            exists|timestamp: Seq<char>| r@ == #[trigger] log_line(timestamp, "INFO"@, message@),
    {
        self.log("INFO", message)
    }

    /// The line that reports `message` as an error.
    pub fn error(&self, message: &str) -> (r: String)
        ensures
            exists|timestamp: Seq<char>| r@ == #[trigger] log_line(timestamp, "ERROR"@, message@),
    {
        self.log("ERROR", message)
    }

    /// The line that reports `message` as a warning.
    pub fn warn(&self, message: &str) -> (r: String)
        ensures
            exists|timestamp: Seq<char>| r@ == #[trigger] log_line(timestamp, "WARN"@, message@),
    {
        self.log("WARN", message)
    }

    /// The path of the log file.
    pub fn get_log_path(&self) -> (r: &String)
        ensures
            r@ == self.path(),
    {
        &self.log_path
    }
}

} // verus!
