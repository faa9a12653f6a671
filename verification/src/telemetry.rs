//! The run log: where it is written and what each line says.
use vstd::prelude::*;
use crate::text::{push_str_chars, string_of};

verus! {

/// A run log: off, or on and written to the file `name`.
pub struct Telemetry {
    pub enabled: bool,
    pub name: String,
}

impl Default for Telemetry {
    /// A log that is off and names no file.
    fn default() -> (t: Self)
        ensures
            !t.enabled,
            t.name@ == Seq::<char>::empty(),
    {
        Telemetry { enabled: false, name: String::new() }
    }
}

/// The log file of a program run: `logs/<app>-<version>-<stamp>.log`.
pub open spec fn log_file_name_text(app_name: Seq<char>, version: Seq<char>, stamp: Seq<char>) -> Seq<char> {
    "logs/"@ + app_name + "-"@ + version + "-"@ + stamp + ".log"@
}

/// The first line written to a new log.
pub open spec fn log_header_text(version: Seq<char>) -> Seq<char> {
    "runtime version : "@ + version
}

/// The line that a message becomes in the log.
pub open spec fn log_line_text(message: Seq<char>) -> Seq<char> {
    "[Telemetry] "@ + message
}

impl Telemetry {
    /// A log that is on, for a program, a library version and the start time
    /// of the run as `%Y-%m-%d_%H-%M-%S` (the caller creates the file).
    pub fn enabled_for(app_name: &str, version: &str, stamp: &str) -> (t: Self)
        ensures
            t.enabled,
            t.name@ == log_file_name_text(app_name@, version@, stamp@),
    {
        let mut out: Vec<char> = Vec::new();
        push_str_chars(&mut out, "logs/");
        push_str_chars(&mut out, app_name);
        push_str_chars(&mut out, "-");
        push_str_chars(&mut out, version);
        push_str_chars(&mut out, "-");
        push_str_chars(&mut out, stamp);
        push_str_chars(&mut out, ".log");
        Telemetry { enabled: true, name: string_of(out.as_slice()) }
    }

    /// The first line of a new log.
    pub fn header(version: &str) -> (line: String)
        ensures
            line@ == log_header_text(version@),
    {
        let mut out: Vec<char> = Vec::new();
        push_str_chars(&mut out, "runtime version : ");
        push_str_chars(&mut out, version);
        string_of(out.as_slice())
    }

    /// The line to append for a message: none while the log is off.
    pub fn line_for(&self, message: &str) -> (line: Option<String>)
        ensures
            !self.enabled ==> line is None,
            self.enabled ==> (line matches Some(l) && l@ == log_line_text(message@)),
    {
        if self.enabled {
            let mut out: Vec<char> = Vec::new();
            push_str_chars(&mut out, "[Telemetry] ");
            push_str_chars(&mut out, message);
            Some(string_of(out.as_slice()))
        } else {
            None
        }
    }
}

} // verus!
