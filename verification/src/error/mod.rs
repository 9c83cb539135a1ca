//! The error type shared by the whole library.

use vstd::prelude::*;
use vstd::string::*;

verus! {

/// An error of the application. Each variant carries the text that describes
/// the failure; for a failure of the platform it is the platform's own report.
#[derive(Debug)]
pub enum AppError {
    EspIO(String),
    StdIO(String),
    System(String),
    Display(String),
    LedStrip(String),
    Server(String),
}

impl AppError {
    /// The text carried by the error.
    pub open spec fn detail(self) -> Seq<char> {
        match self {
            AppError::EspIO(m) => m@,
            AppError::StdIO(m) => m@,
            AppError::System(m) => m@,
            AppError::Display(m) => m@,
            AppError::LedStrip(m) => m@,
            AppError::Server(m) => m@,
        }
    }

    /// The words that introduce the detail in the error's message.
    pub open spec fn heading(self) -> Seq<char> {
        match self {
            AppError::EspIO(_) => "Esp I/O error: "@,
            AppError::StdIO(_) => "Std I/O error: "@,
            AppError::System(_) => "System error: "@,
            AppError::Display(_) => "Display error: "@,
            AppError::LedStrip(_) => "Led strip error: "@,
            AppError::Server(_) => "Server error: "@,
        }
    }

    /// The message a person reads: the heading followed by the detail.
    pub fn message(&self) -> (text: String)
        ensures
            text@ == self.heading() + self.detail(),
    {
        let (head, detail) = match self {
            AppError::EspIO(m) => ("Esp I/O error: ", m),
            AppError::StdIO(m) => ("Std I/O error: ", m),
            AppError::System(m) => ("System error: ", m),
            AppError::Display(m) => ("Display error: ", m),
            AppError::LedStrip(m) => ("Led strip error: ", m),
            AppError::Server(m) => ("Server error: ", m),
        };
        let mut text = String::from_str(head);
        text.append(detail.as_str());
        text
    }
}

} // verus!
