//! Errors of the launcher program as a whole.

use vstd::prelude::*;

verus! {

/// The user interface could not run.
#[derive(Debug)]
pub enum AppError {
    Ui(String),
}

impl AppError {
    /// The message shown to the user: `UI error: ` and the cause.
    pub fn message(&self) -> (m: String)
        ensures
            match self {
                AppError::Ui(cause) => m@ == "UI error: "@ + cause@,
            },
    {
        match self {
            AppError::Ui(cause) => String::from_str("UI error: ").concat(cause.as_str()),
        }
    }
}

} // verus!
