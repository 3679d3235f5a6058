//! The launcher's errors, each with the message the interface shows for it.

use vstd::prelude::*;

verus! {

/// An error of a launcher operation. Each variant carries what its message needs.
#[derive(Clone, Debug, PartialEq, Eq)]
pub enum AppError {
    /// A bottle name longer than CrossOver accepts as a folder name.
    BottleNameTooLong,
    /// A bottle name that starts with a dot or holds a path separator, a colon or NUL.
    BottleNameInvalid,
    /// CrossOver's bottle tool ran and reported failure; the tool's own words, trimmed.
    BottleCreationFailed(String),
    /// A launch was asked for before the bottle exists.
    BottleNotPrepared,
    /// The game's executable is not in the installation folder.
    GameExecutableMissing,
    /// CrossOver support was asked for on a host other than macOS.
    CrossOverUnsupported,
    /// A launch was asked for on a host that has no launch path yet.
    LaunchUnsupported,
    /// A second installer operation was asked for while one runs.
    OperationRunning,
    /// A console response that is too long or spans lines.
    InvalidConsoleResponse,
    /// An operating-system call failed: what was attempted, and what the system said.
    Io { context: String, detail: String },
    /// A message passed on as it stands.
    Message(String),
}

impl AppError {
    /// The text shown for this error.
    pub open spec fn spec_message(&self) -> Seq<char> {
        match self {
            AppError::BottleNameTooLong => "The bottle name is too long; use at most 64 characters."@,
            AppError::BottleNameInvalid => "The bottle name cannot start with a dot or contain slashes or colons."@,
            AppError::BottleCreationFailed(detail) => "CrossOver could not create the bottle: "@ + detail@,
            AppError::BottleNotPrepared => "The CrossOver bottle has not been prepared yet. Open Settings and choose Prepare bottle."@,
            AppError::GameExecutableMissing => "destiny2.exe was not found in the installation folder."@,
            AppError::CrossOverUnsupported => "CrossOver launching is only available on macOS."@,
            AppError::LaunchUnsupported => "Launching is currently supported on Windows and macOS only. Proton launch configuration is not implemented yet."@,
            AppError::OperationRunning => "Another installer operation is already running."@,
            AppError::InvalidConsoleResponse => "The console response is not valid."@,
            AppError::Io { context, detail } => context@ + ": "@ + detail@,
            AppError::Message(text) => text@,
        }
    }

    /// An error that carries `text` as its message.
    pub fn message(text: &str) -> (e: AppError)
        ensures
            e matches AppError::Message(m) && m@ == text@,
            e.spec_message() == text@,
    {
        AppError::Message(text.to_owned())
    }

    /// An error of an operating-system call.
    pub fn io(context: &str, detail: &str) -> (e: AppError)
        ensures
            e matches AppError::Io { context: c, detail: d } && c@ == context@ && d@ == detail@,
            e.spec_message() == context@ + ": "@ + detail@,
    {
        AppError::Io { context: context.to_owned(), detail: detail.to_owned() }
    }

    /// The text shown for this error.
    pub fn to_message(&self) -> (r: String)
        ensures
            r@ == self.spec_message(),
    {
        match self {
            AppError::BottleNameTooLong => {
                "The bottle name is too long; use at most 64 characters.".to_owned()
            },
            AppError::BottleNameInvalid => {
                "The bottle name cannot start with a dot or contain slashes or colons.".to_owned()
            },
            AppError::BottleCreationFailed(detail) => {
                let mut r = "CrossOver could not create the bottle: ".to_owned();
                r.append(detail.as_str());
                r
            },
            AppError::BottleNotPrepared => {
                "The CrossOver bottle has not been prepared yet. Open Settings and choose Prepare bottle.".to_owned()
            },
            AppError::GameExecutableMissing => {
                "destiny2.exe was not found in the installation folder.".to_owned()
            },
            AppError::CrossOverUnsupported => {
                "CrossOver launching is only available on macOS.".to_owned()
            },
            AppError::LaunchUnsupported => {
                "Launching is currently supported on Windows and macOS only. Proton launch configuration is not implemented yet.".to_owned()
            },
            AppError::OperationRunning => {
                "Another installer operation is already running.".to_owned()
            },
            AppError::InvalidConsoleResponse => { "The console response is not valid.".to_owned() },
            AppError::Io { context, detail } => {
                let mut r = context.clone();
                r.append(": ");
                r.append(detail.as_str());
                r
            },
            AppError::Message(text) => text.clone(),
        }
    }
}

} // verus!
