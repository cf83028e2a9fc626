use javelin::adapter::error::AdapterError;
use javelin::adapter::error_handler::{ErrorHandler, ErrorHandlingResult};
use javelin::application::error::ApplicationError;
use javelin::domain::error::DomainError;

#[test]
fn test_handle_page_not_found() {
    let error = AdapterError::PageNotFound("TestPage".to_string());
    let result = ErrorHandler::handle(error);

    let ErrorHandlingResult::DisplayAndContinue(msg) = result else {
        panic!("Expected DisplayAndContinue");
    };

    assert!(msg.contains("Page not found"));
}

#[test]
fn test_handle_page_not_implemented() {
    let error = AdapterError::PageNotImplemented("TestPage".to_string());
    let result = ErrorHandler::handle(error);

    let ErrorHandlingResult::DisplayAndContinue(msg) = result else {
        panic!("Expected DisplayAndContinue");
    };

    assert!(msg.contains("Page not implemented"));
}

#[test]
fn test_handle_terminal_error() {
    let error = AdapterError::RenderingFailed("test error".to_string());
    let result = ErrorHandler::handle(error);

    let ErrorHandlingResult::Terminate(_) = result else {
        panic!("Expected Terminate");
    };
}

#[test]
fn test_handle_unknown_error() {
    let error = AdapterError::Unknown("unknown error".to_string());
    let result = ErrorHandler::handle(error);

    let ErrorHandlingResult::Terminate(_) = result else {
        panic!("Expected Terminate");
    };
}

#[test]
fn business_errors_show_their_full_message() {
    let result = ErrorHandler::handle(AdapterError::PageNotFound("Ledger".to_string()));
    match result {
        ErrorHandlingResult::DisplayAndContinue(msg) => assert_eq!(msg, "Page not found: Ledger"),
        ErrorHandlingResult::Terminate(_) => panic!("Expected DisplayAndContinue"),
    }
    let result = ErrorHandler::handle(AdapterError::InputValidationFailed("amount".to_string()));
    match result {
        ErrorHandlingResult::DisplayAndContinue(msg) => assert_eq!(msg, "Input validation failed: amount"),
        ErrorHandlingResult::Terminate(_) => panic!("Expected DisplayAndContinue"),
    }
    let result = ErrorHandler::handle(AdapterError::DtoConversionFailed("line 2".to_string()));
    match result {
        ErrorHandlingResult::DisplayAndContinue(msg) => assert_eq!(msg, "DTO conversion failed: line 2"),
        ErrorHandlingResult::Terminate(_) => panic!("Expected DisplayAndContinue"),
    }
}

#[test]
fn application_errors_are_shown_with_their_cause() {
    let failed = ApplicationError::ValidationFailed(vec!["date".to_string(), "voucher".to_string()]);
    let result = ErrorHandler::handle(AdapterError::ApplicationError(failed));
    match result {
        ErrorHandlingResult::DisplayAndContinue(msg) => {
            assert_eq!(msg, "Application error: Validation failed: date, voucher")
        }
        ErrorHandlingResult::Terminate(_) => panic!("Expected DisplayAndContinue"),
    }
    let domain = ApplicationError::DomainError(DomainError::RepositoryError("disk full".to_string()));
    let result = ErrorHandler::handle(AdapterError::ApplicationError(domain));
    match result {
        ErrorHandlingResult::DisplayAndContinue(msg) => {
            assert_eq!(msg, "Application error: Domain error: Repository error: disk full")
        }
        ErrorHandlingResult::Terminate(_) => panic!("Expected DisplayAndContinue"),
    }
}

#[test]
fn system_errors_keep_the_original_error() {
    let system_errors = vec![
        AdapterError::TerminalInitFailed("a".to_string()),
        AdapterError::TerminalCleanupFailed("b".to_string()),
        AdapterError::RawModeEnableFailed("c".to_string()),
        AdapterError::RawModeDisableFailed("d".to_string()),
        AdapterError::EventPollingFailed("e".to_string()),
        AdapterError::EventReadFailed("f".to_string()),
    ];
    for error in system_errors {
        let expected = error.message();
        match ErrorHandler::handle(error) {
            ErrorHandlingResult::Terminate(original) => assert_eq!(original.message(), expected),
            ErrorHandlingResult::DisplayAndContinue(_) => panic!("Expected Terminate"),
        }
    }
}

#[test]
fn error_messages_name_their_kind() {
    assert_eq!(AdapterError::EventReadFailed("io".to_string()).message(), "Event read failed: io");
    assert_eq!(ApplicationError::ValidationError("x".to_string()).message(), "Validation error: x");
    assert_eq!(
        ApplicationError::UseCaseExecutionFailed("y".to_string()).message(),
        "Use case execution failed: y"
    );
    assert_eq!(ApplicationError::ValidationFailed(vec![]).message(), "Validation failed: ");
    assert_eq!(DomainError::InvalidAmount.message(), "Invalid amount");
}

#[test]
fn system_error_details_name_what_failed() {
    assert_eq!(
        ErrorHandler::error_details(&AdapterError::RenderingFailed("broken pipe".to_string())),
        "描画失敗: broken pipe"
    );
    assert_eq!(
        ErrorHandler::error_details(&AdapterError::TerminalInitFailed("no tty".to_string())),
        "ターミナル初期化失敗: no tty"
    );
    assert_eq!(ErrorHandler::error_details(&AdapterError::Unknown("x".to_string())), "未定義エラー: x");
    let other = AdapterError::PageNotFound("Z".to_string());
    assert_eq!(ErrorHandler::error_details(&other), other.message());
}
