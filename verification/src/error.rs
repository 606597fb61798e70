//! The error returned to the user interface by the application's commands.

use vstd::prelude::*;
use vstd::string::*;

verus! {

/// An error with a machine-readable code and a human-readable message.
#[derive(Debug, Clone)]
pub struct AppError {
    pub code: String,
    pub message: String,
}

/// What an error holds: its code and its message.
pub struct AppErrorView {
    pub code: Seq<char>,
    pub message: Seq<char>,
}

impl View for AppError {
    type V = AppErrorView;

    open spec fn view(&self) -> AppErrorView {
        AppErrorView { code: self.code@, message: self.message@ }
    }
}

/// The error with the given code and message.
pub open spec fn app_error(code: Seq<char>, message: Seq<char>) -> AppErrorView {
    AppErrorView { code, message }
}

/// The text shown for an error: its code in brackets, a space, its message.
pub open spec fn app_error_text(e: AppErrorView) -> Seq<char> {
    "["@ + e.code + "] "@ + e.message
}

impl AppError {
    /// An error with the given code and message.
    pub fn new(code: &str, message: &str) -> (e: AppError)
        ensures
            e@ == app_error(code@, message@),
    {
        AppError { code: String::from_str(code), message: String::from_str(message) }
    }

    /// A generic internal error.
    pub fn internal(message: &str) -> (e: AppError)
        ensures
            e@ == app_error("internal"@, message@),
    {
        Self::new("internal", message)
    }

    /// Usage data could not be retrieved.
    pub fn usage_unavailable(message: &str) -> (e: AppError)
        ensures
            e@ == app_error("usage_unavailable"@, message@),
    {
        Self::new("usage_unavailable", message)
    }

    /// Settings could not be loaded, changed or saved.
    pub fn settings_error(message: &str) -> (e: AppError)
        ensures
            e@ == app_error("settings_error"@, message@),
    {
        Self::new("settings_error", message)
    }

    /// The text shown for this error, `[code] message`.
    pub fn to_display_string(&self) -> (s: String)
        ensures
            s@ == app_error_text(self@),
    {
        let mut s = String::from_str("[");
        s.append(self.code.as_str());
        s.append("] ");
        s.append(self.message.as_str());
        s
    }
}

} // verus!
