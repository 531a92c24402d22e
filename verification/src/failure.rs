//! The ways a run can end fatally.

use vstd::prelude::*;
use vstd::string::*;

verus! {

/// A fatal outcome. Each one is reported to the user and ends the run with
/// a non-zero status. An alias that is not known is no failure.
#[derive(Debug, PartialEq, Eq)]
pub enum Failure {
    /// No configuration path was given and the environment names no home
    /// directory to look in.
    HomeDirectoryUnresolvable,
    /// The configuration at `path` could not be opened.
    ConfigUnreadable { path: String },
    /// The configuration does not have the expected shape; `context` says
    /// where.
    ConfigMalformed { context: String },
    /// The SSH client could not be started; `reason` says why.
    ProcessLaunchFailed { reason: String },
}

impl Failure {
    /// The text that reports this failure.
    pub open spec fn spec_message(&self) -> Seq<char> {
        match *self {
            Failure::HomeDirectoryUnresolvable => "Could not get default location"@,
            Failure::ConfigUnreadable { path } => "Not able to read configuration file at "@
                + path@,
            Failure::ConfigMalformed { context } => "Could not parse configuration file: "@
                + context@,
            Failure::ProcessLaunchFailed { reason } => "Could not execute process: "@ + reason@,
        }
    }

    /// The text that reports this failure, with the path, place or reason
    /// it carries.
    pub fn message(&self) -> (text: String)
        ensures
            text@ == self.spec_message(),
    {
        match self {
            Failure::HomeDirectoryUnresolvable => String::from_str(
                "Could not get default location",
            ),
            Failure::ConfigUnreadable { path } => {
                let mut text: String = String::from_str("Not able to read configuration file at ");
                text.append(path.as_str());
                text
            },
            Failure::ConfigMalformed { context } => {
                let mut text: String = String::from_str("Could not parse configuration file: ");
                text.append(context.as_str());
                text
            },
            Failure::ProcessLaunchFailed { reason } => {
                let mut text: String = String::from_str("Could not execute process: ");
                text.append(reason.as_str());
                text
            },
        }
    }

    /// The status the process exits with after this failure: never zero.
    pub fn exit_code(&self) -> (code: i32)
        ensures
            code == 1,
    {
        1
    }
}

} // verus!
