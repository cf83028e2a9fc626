//! Errors of the terminal adapter. The wording of their messages is this
//! library's own.

use vstd::prelude::*;
use crate::application::error::ApplicationError;
use crate::text::join2;

verus! {

/// What went wrong while driving the screens. The terminal and event
/// variants carry the text of the system error behind them.
#[derive(Debug, Clone)]
pub enum AdapterError {
    /// No screen has the given name.
    PageNotFound(String),
    /// The screen exists but is not implemented yet.
    PageNotImplemented(String),
    /// The user's input was not acceptable.
    InputValidationFailed(String),
    /// Converting input into a request failed.
    DtoConversionFailed(String),
    /// A use case failed.
    ApplicationError(ApplicationError),
    /// The terminal could not be set up.
    TerminalInitFailed(String),
    /// The terminal could not be restored.
    TerminalCleanupFailed(String),
    /// Raw mode could not be switched on.
    RawModeEnableFailed(String),
    /// Raw mode could not be switched off.
    RawModeDisableFailed(String),
    /// Drawing a frame failed.
    RenderingFailed(String),
    /// Waiting for input failed.
    EventPollingFailed(String),
    /// Reading input failed.
    EventReadFailed(String),
    /// Anything else.
    Unknown(String),
}

/// The result of an adapter operation.
pub type AdapterResult<T> = Result<T, AdapterError>;

impl AdapterError {
    /// The text that describes the error.
    pub open spec fn spec_message(self) -> Seq<char> {
        match self {
            AdapterError::PageNotFound(m) => "Page not found: "@ + m@,
            AdapterError::PageNotImplemented(m) => "Page not implemented: "@ + m@,
            AdapterError::InputValidationFailed(m) => "Input validation failed: "@ + m@,
            AdapterError::DtoConversionFailed(m) => "DTO conversion failed: "@ + m@,
            AdapterError::ApplicationError(e) => "Application error: "@ + e.spec_message(),
            AdapterError::TerminalInitFailed(m) => "Terminal initialization failed: "@ + m@,
            AdapterError::TerminalCleanupFailed(m) => "Terminal cleanup failed: "@ + m@,
            AdapterError::RawModeEnableFailed(m) => "Failed to enable raw mode: "@ + m@,
            AdapterError::RawModeDisableFailed(m) => "Failed to disable raw mode: "@ + m@,
            AdapterError::RenderingFailed(m) => "Rendering failed: "@ + m@,
            AdapterError::EventPollingFailed(m) => "Event polling failed: "@ + m@,
            AdapterError::EventReadFailed(m) => "Event read failed: "@ + m@,
            AdapterError::Unknown(m) => "Unknown error: "@ + m@,
        }
    }

    /// The text that describes the error.
    pub fn message(&self) -> (r: String)
        ensures
            r@ == self.spec_message(),
    {
        match self {
            AdapterError::PageNotFound(m) => join2("Page not found: ", m.as_str()),
            AdapterError::PageNotImplemented(m) => join2("Page not implemented: ", m.as_str()),
            AdapterError::InputValidationFailed(m) => join2("Input validation failed: ", m.as_str()),
            AdapterError::DtoConversionFailed(m) => join2("DTO conversion failed: ", m.as_str()),
            AdapterError::ApplicationError(e) => {
                let m = e.message();
                join2("Application error: ", m.as_str())
            },
            AdapterError::TerminalInitFailed(m) => join2("Terminal initialization failed: ", m.as_str()),
            AdapterError::TerminalCleanupFailed(m) => join2("Terminal cleanup failed: ", m.as_str()),
            AdapterError::RawModeEnableFailed(m) => join2("Failed to enable raw mode: ", m.as_str()),
            AdapterError::RawModeDisableFailed(m) => join2("Failed to disable raw mode: ", m.as_str()),
            AdapterError::RenderingFailed(m) => join2("Rendering failed: ", m.as_str()),
            AdapterError::EventPollingFailed(m) => join2("Event polling failed: ", m.as_str()),
            AdapterError::EventReadFailed(m) => join2("Event read failed: ", m.as_str()),
            AdapterError::Unknown(m) => join2("Unknown error: ", m.as_str()),
        }
    }

    /// A business error: the user is shown the message and the application
    /// goes on. Every other error is a system error that ends the application.
    pub open spec fn is_business_error(self) -> bool {
        ||| self is PageNotFound
        ||| self is PageNotImplemented
        ||| self is InputValidationFailed
        ||| self is DtoConversionFailed
        ||| self is ApplicationError
    }
}

} // verus!
