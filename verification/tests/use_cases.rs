use std::sync::Arc;

use javelin::adapter::controller::{AccountMasterController, ClosingController, RecordUserActionController};
use javelin::adapter::error::AdapterError;
use javelin::adapter::presenter::{account_master_view_model, format_account_type};
use javelin::application::dtos::{AccountMasterItemDto, RegisterJournalEntryResponse, LoadAccountMasterResponse, PeriodRequest};
use javelin::application::error::ApplicationError;
use javelin::application::ifrs_valuation::{ApplyIfrsValuationInteractor, ClosingEvent};
use javelin::application::journal_entry_commands::{
    JournalEntryEvent, RejectJournalEntryInteractor, RejectJournalEntryRequest, ReverseJournalEntryInteractor,
    ReverseJournalEntryRequest, SubmitForApprovalInteractor, SubmitForApprovalRequest,
};
use javelin::application::master_data::{SystemSettings, UserOptions};
use javelin::application::output_port::EventNotification;
use javelin::application::projection_builder::ProjectionBuilder;
use javelin::application::record_user_action::{
    RecordUserActionInteractor, RecordUserActionRequest, RecordUserActionResponse,
};
use javelin::domain::error::DomainError;

fn request() -> RecordUserActionRequest {
    RecordUserActionRequest {
        user: "test_user".to_string(),
        location: "HomePage".to_string(),
        action: "メニュー選択".to_string(),
    }
}

#[test]
fn test_record_user_action_success() {
    let (notice, result) =
        RecordUserActionInteractor::<(), ()>::conclude(request(), Ok("test-action-id".to_string()), 42);
    assert!(notice.success);
    assert_eq!(notice.user, "test_user");
    assert_eq!(notice.location, "HomePage");
    assert_eq!(notice.action, "メニュー選択");
    let response = result.unwrap();
    assert_eq!(response.action_id, "test-action-id");
    assert_eq!(response.recorded_at, 42);
}

#[test]
fn a_failed_recording_is_notified_and_returned() {
    let (notice, result) =
        RecordUserActionInteractor::<(), ()>::conclude_now(request(), Err("disk full".to_string()));
    assert!(!notice.success);
    assert_eq!(notice.action, "操作記録失敗: メニュー選択 - disk full");
    match result {
        Err(ApplicationError::UseCaseExecutionFailed(m)) => {
            assert_eq!(m, "Failed to record user action: disk full")
        }
        _ => panic!("Expected UseCaseExecutionFailed"),
    }
    let (notice, result) = RecordUserActionInteractor::<(), ()>::conclude_now(request(), Ok("id".to_string()));
    assert!(notice.success);
    assert!(result.unwrap().recorded_at > 0);
    let _interactor = RecordUserActionInteractor::new(Arc::new(1u8), Arc::new(2u8));
}

#[test]
fn notifications_carry_their_outcome() {
    let ok = EventNotification::success("u".to_string(), "l".to_string(), "a".to_string());
    let ng = EventNotification::failure("u".to_string(), "l".to_string(), "a".to_string());
    assert!(ok.success);
    assert!(!ng.success);
    assert_eq!(ng.action, "a");
}

#[test]
fn defaults_of_the_settings() {
    let u = UserOptions::default();
    assert_eq!(u.language, "ja");
    assert_eq!(u.decimal_places, 2);
    assert_eq!(u.date_format, "YYYY-MM-DD");
    assert!(u.default_company_code.is_none());
    let s = SystemSettings::default();
    assert_eq!((s.fiscal_year_start_month, s.closing_day, s.backup_retention_days), (4, 31, 90));
    assert!(s.auto_backup_enabled);
}

#[test]
fn projections_rebuild() {
    let b = ProjectionBuilder::new();
    assert!(b.rebuild_from_events().is_ok());
    assert!(b.update_from_event(&[1, 2, 3]).is_ok());
    let _ = ProjectionBuilder::default();
}

#[test]
fn account_types_are_named_in_japanese() {
    assert_eq!(format_account_type("Asset"), "資産");
    assert_eq!(format_account_type("Liability"), "負債");
    assert_eq!(format_account_type("Equity"), "純資産");
    assert_eq!(format_account_type("Revenue"), "収益");
    assert_eq!(format_account_type("Expense"), "費用");
    assert_eq!(format_account_type("Other"), "Other");
    let vm = account_master_view_model(&LoadAccountMasterResponse {
        accounts: vec![AccountMasterItemDto {
            code: "1110".to_string(),
            name: "現金".to_string(),
            account_type: "Asset".to_string(),
        }],
    });
    assert_eq!(vm.headers, vec!["コード", "科目名", "区分"]);
    assert_eq!(vm.rows, vec![vec!["1110".to_string(), "現金".to_string(), "資産".to_string()]]);
}

#[test]
fn submit_reject_reverse() {
    let submit = SubmitForApprovalRequest { entry_id: "JE1".to_string(), user_id: "u1".to_string() };
    let (notice, stream, event) = SubmitForApprovalInteractor::<(), (), ()>::begin(&submit, 5);
    assert_eq!(notice.action, "承認申請を開始: JE1");
    assert_eq!(stream, "JE1");
    assert!(matches!(event, JournalEntryEvent::ApprovalRequested { requested_at: 5, .. }));
    let (resp, done) =
        SubmitForApprovalInteractor::<(), (), ()>::complete(submit, Ok(()), "t".to_string()).unwrap();
    assert_eq!(resp.status, "PendingApproval");
    assert_eq!(done.action, "承認申請が完了");

    let reject = RejectJournalEntryRequest {
        entry_id: "JE2".to_string(),
        reason: "r".to_string(),
        rejected_by: "boss".to_string(),
    };
    let (_, stream, _) = RejectJournalEntryInteractor::<(), (), ()>::begin(&reject, 1);
    assert_eq!(stream, "JE2");
    let failed = RejectJournalEntryInteractor::<(), (), ()>::complete(
        reject,
        Err(DomainError::RepositoryError("EventStore保存失敗".to_string())),
        "t".to_string(),
    );
    assert!(matches!(failed, Err(ApplicationError::DomainError(_))));

    let reverse = ReverseJournalEntryRequest {
        entry_id: "JE3".to_string(),
        reason: "誤記".to_string(),
        user_id: "u".to_string(),
    };
    let (_, stream, event) = ReverseJournalEntryInteractor::<(), (), ()>::begin(&reverse, 9);
    assert_eq!(stream, "REV-JE3");
    match event {
        JournalEntryEvent::Reversed { entry_id, original_id, .. } => {
            assert_eq!(entry_id, "REV-JE3");
            assert_eq!(original_id, "JE3");
        }
        _ => panic!("Expected Reversed"),
    }
    let (resp, _) =
        ReverseJournalEntryInteractor::<(), (), ()>::complete(reverse, Ok(()), "t".to_string()).unwrap();
    assert_eq!(resp.entry_id, "REV-JE3");
    assert_eq!(resp.original_entry_id, "JE3");
    assert_eq!(resp.status, "Reversed");
    let _ = SubmitForApprovalInteractor::new(Arc::new(()), Arc::new(()), Arc::new(()));
    let _ = RejectJournalEntryInteractor::new(Arc::new(()), Arc::new(()), Arc::new(()));
    let _ = ReverseJournalEntryInteractor::new(Arc::new(()), Arc::new(()), Arc::new(()));
}

#[test]
fn ifrs_valuation_of_a_period() {
    assert_eq!(ApplyIfrsValuationInteractor::<(), ()>::valuation_id(2024, 7), "IFRS-2024-07");
    assert_eq!(ApplyIfrsValuationInteractor::<(), ()>::valuation_id(2024, 12), "IFRS-2024-12");
    let (id, event, response) =
        ApplyIfrsValuationInteractor::<(), ()>::valuation(PeriodRequest { fiscal_year: 2024, period: 3 }, 77);
    assert_eq!(id, "IFRS-2024-03");
    match event {
        ClosingEvent::IfrsValuationApplied { valuation_id, account_code, amount, currency, .. } => {
            assert_eq!(valuation_id, "IFRS-2024-03-ECL");
            assert_eq!(account_code, "1100");
            assert_eq!(amount, 50000);
            assert_eq!(currency, "JPY");
        }
    }
    assert_eq!(response.expected_credit_loss, 50000);
    assert_eq!(response.expected_credit_loss_currency, "JPY");
    assert!(response.fair_value_adjustments.is_empty());
    let _ = ApplyIfrsValuationInteractor::new(Arc::new(()), Arc::new(()));
}

#[test]
fn controller_builds_the_request_from_its_parts() {
    let r = RecordUserActionController::<()>::request("u".to_string(), "HomePage".to_string(), "開く".to_string());
    assert_eq!(r.user, "u");
    assert_eq!(r.location, "HomePage");
    assert_eq!(r.action, "開く");
    let c = RecordUserActionController::new(Arc::new(()));
    assert_eq!(**c.use_case_handle(), ());
}

#[test]
fn controller_answers_with_the_response_or_the_error_text() {
    let ok = RecordUserActionController::<()>::reply(Ok(RecordUserActionResponse {
        action_id: "a1".to_string(),
        recorded_at: 7,
    }));
    let resp = ok.unwrap();
    assert_eq!(resp.action_id, "a1");
    assert_eq!(resp.recorded_at, 7);
    let err = RecordUserActionController::<()>::reply(Err(ApplicationError::UseCaseExecutionFailed(
        "disk full".to_string(),
    )));
    assert_eq!(err.unwrap_err(), "Use case execution failed: disk full");
}

type Closing = ClosingController<(), (), (), (), (), (), (), ()>;

#[test]
fn closing_controller_passes_the_response_through() {
    let r = Closing::answer(Ok::<u32, ApplicationError>(5));
    assert_eq!(r.unwrap(), 5);
}

#[test]
fn closing_controller_wraps_use_case_errors() {
    let r = Closing::answer::<u32>(Err(ApplicationError::ValidationError("bad period".to_string())));
    match r {
        Err(AdapterError::ApplicationError(e)) => {
            assert_eq!(e.message(), "Validation error: bad period");
        },
        _ => panic!("expected an application error"),
    }
}

#[test]
fn simple_registration_response_keeps_the_identifier() {
    let r = RegisterJournalEntryResponse::simple("JE-001".to_string(), true, "ok".to_string());
    assert_eq!(r.journal_entry_id.value(), "JE-001");
    assert!(r.registered_at > 0);
}

#[test]
fn account_master_request_carries_filter_and_flag() {
    let r = AccountMasterController::<()>::request(Some("現金".to_string()), true);
    assert_eq!(r.filter.as_deref(), Some("現金"));
    assert!(r.active_only);
    let r = AccountMasterController::<()>::request(None, false);
    assert!(r.filter.is_none());
    assert!(!r.active_only);
    let c = AccountMasterController::new(7u8);
    assert_eq!(*c.interactor_handle(), 7);
}

#[test]
fn commands_read_the_clock_when_asked() {
    let submit = SubmitForApprovalRequest { entry_id: "JE7".to_string(), user_id: "u".to_string() };
    let (_, stream, event) = SubmitForApprovalInteractor::<(), (), ()>::begin_now(&submit);
    assert_eq!(stream, "JE7");
    match event {
        JournalEntryEvent::ApprovalRequested { requested_at, .. } => assert!(requested_at > 0),
        _ => panic!("an approval request"),
    }
    let (resp, notice) = SubmitForApprovalInteractor::<(), (), ()>::complete_now(submit, Ok(())).unwrap();
    assert_eq!(resp.status, "PendingApproval");
    assert!(resp.submitted_at.ends_with("+00:00"));
    assert_eq!(&resp.submitted_at[4..5], "-");
    assert_eq!(notice.action, "承認申請が完了");
}
