//! Sorting errors into those the user is shown and those that end the program.

use vstd::prelude::*;
use crate::adapter::error::AdapterError;
use crate::text::join2;

verus! {

/// What to do about an error.
pub enum ErrorHandlingResult {
    /// Show the message and go on.
    DisplayAndContinue(String),
    /// End the application; the original error is kept.
    Terminate(AdapterError),
}

/// Sorts errors.
pub struct ErrorHandler;

/// The detail of a system error in the report that ends the program: what
/// failed, in Japanese, with the system's text; any other error's own text.
pub open spec fn error_details(e: AdapterError) -> Seq<char> {
    match e {
        AdapterError::TerminalInitFailed(m) => "ターミナル初期化失敗: "@ + m@,
        AdapterError::TerminalCleanupFailed(m) => "ターミナルクリーンアップ失敗: "@ + m@,
        AdapterError::RawModeEnableFailed(m) => "Rawモード有効化失敗: "@ + m@,
        AdapterError::RawModeDisableFailed(m) => "Rawモード無効化失敗: "@ + m@,
        AdapterError::RenderingFailed(m) => "描画失敗: "@ + m@,
        AdapterError::EventPollingFailed(m) => "イベントポーリング失敗: "@ + m@,
        AdapterError::EventReadFailed(m) => "イベント読み込み失敗: "@ + m@,
        AdapterError::Unknown(m) => "未定義エラー: "@ + m@,
        _ => e.spec_message(),
    }
}

impl ErrorHandler {
    /// Business errors are shown and the application goes on; system errors
    /// (terminal, raw mode, rendering, input and unknown errors) end it.
    pub fn handle(error: AdapterError) -> (r: ErrorHandlingResult)
        ensures
            error.is_business_error() ==> (r matches ErrorHandlingResult::DisplayAndContinue(m)
                && m@ == error.spec_message()),
            !error.is_business_error() ==> r == ErrorHandlingResult::Terminate(error),
    {
        match error {
            AdapterError::PageNotFound(_)
            | AdapterError::PageNotImplemented(_)
            | AdapterError::InputValidationFailed(_)
            | AdapterError::DtoConversionFailed(_)
            | AdapterError::ApplicationError(_) => {
                ErrorHandlingResult::DisplayAndContinue(error.message())
            },
            AdapterError::TerminalInitFailed(_)
            | AdapterError::TerminalCleanupFailed(_)
            | AdapterError::RawModeEnableFailed(_)
            | AdapterError::RawModeDisableFailed(_)
            | AdapterError::RenderingFailed(_)
            | AdapterError::EventPollingFailed(_)
            | AdapterError::EventReadFailed(_)
            | AdapterError::Unknown(_) => ErrorHandlingResult::Terminate(error),
        }
    }

    /// The detail line of the report on a system error.
    pub fn error_details(error: &AdapterError) -> (r: String)
        ensures
            r@ == error_details(*error),
    {
        match error {
            AdapterError::TerminalInitFailed(m) => join2("ターミナル初期化失敗: ", m.as_str()),
            AdapterError::TerminalCleanupFailed(m) => join2("ターミナルクリーンアップ失敗: ", m.as_str()),
            AdapterError::RawModeEnableFailed(m) => join2("Rawモード有効化失敗: ", m.as_str()),
            AdapterError::RawModeDisableFailed(m) => join2("Rawモード無効化失敗: ", m.as_str()),
            AdapterError::RenderingFailed(m) => join2("描画失敗: ", m.as_str()),
            AdapterError::EventPollingFailed(m) => join2("イベントポーリング失敗: ", m.as_str()),
            AdapterError::EventReadFailed(m) => join2("イベント読み込み失敗: ", m.as_str()),
            AdapterError::Unknown(m) => join2("未定義エラー: ", m.as_str()),
            _ => error.message(),
        }
    }
}

} // verus!
