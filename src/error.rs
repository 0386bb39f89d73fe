use vstd::prelude::*;

verus! {

/// The errors of the interception pipeline.
///
/// Where the underlying failure came from an operating-system facility or a
/// parser outside the library, its description is kept as a message.
#[derive(Debug)]
pub enum TrampError {
    /// A configuration file that was asked for does not exist.
    ConfigNotFound { path: String },
    /// A configuration file could not be read.
    ConfigReadError { path: String, message: String },
    /// A configuration file is malformed.
    ConfigParseError { path: String, message: String },
    /// A pattern or a substitution could not be compiled; `pattern` is the
    /// offending text.
    InvalidRegex { pattern: String, reason: String },
    /// Two of the mutually exclusive rewrite strategies are set on one rule.
    MutuallyExclusive { option1: String, option2: String },
    /// The shell that runs a hook could not be started.
    HookFailed { hook_path: String, message: String },
    /// A pre-hook ended with a non-zero exit code.
    HookNonZeroExit { hook_path: String, exit_code: i32 },
    /// The real command could not be started.
    CommandFailed { command: String, message: String },
    /// The real command could not be found.
    CommandNotFound { command: String },
    /// The home directory could not be determined.
    HomeDirectoryNotFound,
}

} // verus!
