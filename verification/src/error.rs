//! The error type that every probe reports through. A failed probe never
//! stops the run: its error is stored in the snapshot and the fact simply
//! does not appear in the output.

use vstd::prelude::*;

use crate::strutil::int_seq;
use crate::strutil::int_str;

verus! {

/// Why a fact about the host could not be gathered.
#[derive(Debug, Clone, PartialEq, Eq)]
pub enum NeofetchError {
    /// A file could not be read.
    FileRead { path: String, message: String },
    /// A file could not be written.
    FileWrite { path: String, message: String },
    /// A value was read but could not be converted to the expected type.
    ParseError { field: String, reason: String },
    /// A subprocess could not be started.
    CommandExecution { command: String, message: String },
    /// A subprocess ran but returned a non-zero exit code.
    CommandFailed { command: String, code: i32 },
    /// A management-interface query failed.
    WmiError(String),
    /// A native system call failed.
    SystemCall(String),
    /// The probe has no implementation for the running platform.
    UnsupportedPlatform,
    /// The platform interface returned no usable data.
    DataUnavailable(String),
    /// Bytes that should have been text were not valid UTF-8.
    Utf8Error(String),
    /// A concurrent task could not be joined.
    JoinError(String),
    /// A generic input/output failure.
    Io(String),
    /// An integer field did not parse.
    ParseInt(String),
    /// A floating-point field did not parse.
    ParseFloat(String),
    /// A probe did not answer within its time budget. One slow source must
    /// not stall the whole run, so the caller gives each probe a deadline
    /// and stores this when it passes.
    Timeout,
}

/// The outcome of one probe.
pub type Result<T> = core::result::Result<T, NeofetchError>;

/// The human-readable description of an error.
pub open spec fn error_message(e: NeofetchError) -> Seq<char> {
    match e {
        NeofetchError::FileRead { path, message } => "Failed to read file '"@ + path@ + "': "@
            + message@,
        NeofetchError::FileWrite { path, message } => "Failed to write file '"@ + path@ + "': "@
            + message@,
        NeofetchError::ParseError { field, reason } => "Failed to parse "@ + field@ + ": "@
            + reason@,
        NeofetchError::CommandExecution { command, message } => "Failed to execute command '"@
            + command@ + "': "@ + message@,
        NeofetchError::CommandFailed { command, code } => "Command '"@ + command@
            + "' failed with exit code "@ + int_seq(code as int),
        NeofetchError::WmiError(s) => "WMI query failed: "@ + s@,
        NeofetchError::SystemCall(s) => "System call failed: "@ + s@,
        NeofetchError::UnsupportedPlatform => "Feature not available on this platform"@,
        NeofetchError::DataUnavailable(s) => "Data not available: "@ + s@,
        NeofetchError::Utf8Error(s) => "Invalid UTF-8 data: "@ + s@,
        NeofetchError::JoinError(s) => "Task join error: "@ + s@,
        NeofetchError::Io(s) => "I/O error: "@ + s@,
        NeofetchError::ParseInt(s) => "Failed to parse integer: "@ + s@,
        NeofetchError::ParseFloat(s) => "Failed to parse float: "@ + s@,
        NeofetchError::Timeout => "Probe timed out"@,
    }
}

impl NeofetchError {
    /// The human-readable description of this error.
    pub fn message(&self) -> (r: String)
        ensures
            r@ == error_message(*self),
    {
        let mut r: String = String::new();
        match self {
            NeofetchError::FileRead { path, message } => {
                r.append("Failed to read file '");
                r.append(path.as_str());
                r.append("': ");
                r.append(message.as_str());
            },
            NeofetchError::FileWrite { path, message } => {
                r.append("Failed to write file '");
                r.append(path.as_str());
                r.append("': ");
                r.append(message.as_str());
            },
            NeofetchError::ParseError { field, reason } => {
                r.append("Failed to parse ");
                r.append(field.as_str());
                r.append(": ");
                r.append(reason.as_str());
            },
            NeofetchError::CommandExecution { command, message } => {
                r.append("Failed to execute command '");
                r.append(command.as_str());
                r.append("': ");
                r.append(message.as_str());
            },
            NeofetchError::CommandFailed { command, code } => {
                r.append("Command '");
                r.append(command.as_str());
                r.append("' failed with exit code ");
                r.append(int_str(*code as i64).as_str());
            },
            NeofetchError::WmiError(s) => {
                r.append("WMI query failed: ");
                r.append(s.as_str());
            },
            NeofetchError::SystemCall(s) => {
                r.append("System call failed: ");
                r.append(s.as_str());
            },
            NeofetchError::UnsupportedPlatform => {
                r.append("Feature not available on this platform");
            },
            NeofetchError::DataUnavailable(s) => {
                r.append("Data not available: ");
                r.append(s.as_str());
            },
            NeofetchError::Utf8Error(s) => {
                r.append("Invalid UTF-8 data: ");
                r.append(s.as_str());
            },
            NeofetchError::JoinError(s) => {
                r.append("Task join error: ");
                r.append(s.as_str());
            },
            NeofetchError::Io(s) => {
                r.append("I/O error: ");
                r.append(s.as_str());
            },
            NeofetchError::ParseInt(s) => {
                r.append("Failed to parse integer: ");
                r.append(s.as_str());
            },
            NeofetchError::ParseFloat(s) => {
                r.append("Failed to parse float: ");
                r.append(s.as_str());
            },
            NeofetchError::Timeout => {
                r.append("Probe timed out");
            },
        }
        proof {
            assert(r@ =~= error_message(*self));
        }
        r
    }

    /// An error for a file that could not be read.
    pub fn file_read(path: &str, message: &str) -> (r: Self)
        ensures
            r matches NeofetchError::FileRead { path: p, message: m } && p@ == path@ && m@
                == message@,
    {
        NeofetchError::FileRead { path: path.to_owned(), message: message.to_owned() }
    }

    /// An error for a file that could not be written.
    pub fn file_write(path: &str, message: &str) -> (r: Self)
        ensures
            r matches NeofetchError::FileWrite { path: p, message: m } && p@ == path@ && m@
                == message@,
    {
        NeofetchError::FileWrite { path: path.to_owned(), message: message.to_owned() }
    }

    /// An error for a value that did not parse.
    pub fn parse_error(field: &str, reason: &str) -> (r: Self)
        ensures
            r matches NeofetchError::ParseError { field: f, reason: e } && f@ == field@ && e@
                == reason@,
    {
        NeofetchError::ParseError { field: field.to_owned(), reason: reason.to_owned() }
    }

    /// An error for a subprocess that could not be started.
    pub fn command_execution(command: &str, message: &str) -> (r: Self)
        ensures
            r matches NeofetchError::CommandExecution { command: c, message: m } && c@ == command@
                && m@ == message@,
    {
        NeofetchError::CommandExecution { command: command.to_owned(), message: message.to_owned() }
    }

    /// An error for a subprocess that returned a non-zero exit code.
    pub fn command_failed(command: &str, code: i32) -> (r: Self)
        ensures
            r matches NeofetchError::CommandFailed { command: c, code: k } && c@ == command@ && k
                == code,
    {
        NeofetchError::CommandFailed { command: command.to_owned(), code }
    }

    /// An error for a platform interface that returned no usable data.
    pub fn data_unavailable(message: &str) -> (r: Self)
        ensures
            r matches NeofetchError::DataUnavailable(m) && m@ == message@,
    {
        NeofetchError::DataUnavailable(message.to_owned())
    }

    /// An error for a failed native system call.
    pub fn system_call(message: &str) -> (r: Self)
        ensures
            r matches NeofetchError::SystemCall(m) && m@ == message@,
    {
        NeofetchError::SystemCall(message.to_owned())
    }

    /// An error for a failed management-interface query.
    pub fn wmi_error(message: &str) -> (r: Self)
        ensures
            r matches NeofetchError::WmiError(m) && m@ == message@,
    {
        NeofetchError::WmiError(message.to_owned())
    }
}

} // verus!
