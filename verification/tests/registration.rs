use javelin::application::error::ApplicationError;
use javelin::application::journal_entry_registration::{
    check_balance, new_entry_id, CalendarDate, CreateReplacementEntryInteractor, CreateReplacementEntryRequest,
    JournalEntryLineDto, ReferenceEntry, RefusedAt, RegisterJournalEntryInteractor, RegisterJournalEntryRequest,
    RegistrationAction, RegistrationEvent, RegistrationStage, RegistrationState, ReplacementAction, ReplacementEvent,
};
use javelin::domain::error::DomainError;

type Register = RegisterJournalEntryInteractor<(), (), (), ()>;
type Replace = CreateReplacementEntryInteractor<(), (), (), ()>;

fn line(number: u32, side: &str, account: &str, amount: i64) -> JournalEntryLineDto {
    JournalEntryLineDto {
        line_number: number,
        side: side.to_string(),
        account_code: account.to_string(),
        sub_account_code: None,
        department_code: None,
        amount,
        currency: "JPY".to_string(),
        tax_type: "NonTaxable".to_string(),
        tax_amount: 0,
        description: None,
    }
}

fn request(date: &str, credit: i64) -> RegisterJournalEntryRequest {
    RegisterJournalEntryRequest {
        transaction_date: date.to_string(),
        voucher_number: "V-001".to_string(),
        lines: vec![line(1, "Debit", "1010", 100000), line(2, "Credit", "4010", credit)],
        user_id: "user1".to_string(),
    }
}

#[test]
fn test_successful_journal_entry_registration() {
    let req = request("2024-01-15", 100000);
    let (start, progress) = Register::begin();
    assert!(start.success);
    assert_eq!(start.user, "system");
    assert_eq!(start.location, "RegisterJournalEntry");
    assert_eq!(start.action, "仕訳登録を開始");
    assert_eq!(progress, "入力データを検証しています...");
    let date = Register::read_date(&req.transaction_date).unwrap();
    assert_eq!(date, CalendarDate { year: 2024, month: 1, day: 15 });
    assert!(!Register::needs_voucher(&req.voucher_number));
    let id = new_entry_id();
    let (response, done, result) = Register::complete(id.clone(), "Draft".to_string(), Ok(()));
    assert!(result.is_ok());
    let response = response.unwrap();
    assert_eq!(response.status, "Draft");
    assert_eq!(response.entry_id, id);
    let done = done.unwrap();
    assert!(done.success);
    assert_eq!(done.action, "仕訳登録が完了");
}

#[test]
fn test_validation_error_invalid_date() {
    let req = request("invalid-date", 100000);
    let refusal = Register::read_date(&req.transaction_date).unwrap_err();
    match &refusal.error {
        ApplicationError::ValidationFailed(ms) => {
            assert_eq!(ms.len(), 1);
            assert!(ms[0].starts_with("日付形式が不正です: invalid-date (エラー: "));
            assert!(ms[0].ends_with(")"));
            assert_eq!(ms[0], refusal.notice);
        },
        _ => panic!("Expected ValidationFailed error"),
    }
}

#[test]
fn test_validation_error_unbalanced_entry() {
    let req = request("2024-01-15", 50000);
    assert_eq!(check_balance(&req.lines), Err(DomainError::UnbalancedEntry));
    let (_, step) = Register::start(&req);
    let step = Register::step(step.state, RegistrationEvent::Checked(Ok(())), &req.lines);
    let step = Register::step(step.state, RegistrationEvent::Checked(Ok(())), &req.lines);
    assert!(matches!(step.action, RegistrationAction::MakeLines));
    let step = Register::step(step.state, RegistrationEvent::LinesMade(Ok(())), &req.lines);
    assert_eq!(step.progress, vec!["借貸バランスを検証しています..."]);
    match step.action {
        RegistrationAction::Fail(refusal) => {
            match refusal.error {
                ApplicationError::DomainError(DomainError::UnbalancedEntry) => {},
                _ => panic!("Expected DomainError"),
            }
            assert_eq!(refusal.notice, "借貸バランスが一致しません: Debits and credits do not balance");
        },
        _ => panic!("Expected DomainError"),
    }
    assert!(matches!(step.state, RegistrationState::Over));
}

#[test]
fn test_event_store_save_failure() {
    let failure = DomainError::RepositoryError("EventStore保存失敗".to_string());
    let (response, done, result) = Register::complete(new_entry_id(), "Draft".to_string(), Err(failure.clone()));
    assert!(response.is_none());
    assert!(done.is_none());
    let refusal = result.unwrap_err();
    assert_eq!(refusal.error, ApplicationError::DomainError(failure));
    assert_eq!(refusal.notice, "イベントストアへの保存に失敗しました: Repository error: EventStore保存失敗");
}

#[test]
fn chrono_reads_only_real_dates() {
    assert!(Register::read_date("2024-02-29").is_ok());
    assert!(Register::read_date("2023-02-29").is_err());
    assert!(Register::read_date("2024/01/15").is_err());
}

#[test]
fn empty_voucher_is_generated_for_the_year_of_the_date() {
    assert!(Register::needs_voucher(""));
    assert!(!Register::needs_voucher("V"));
    let d = Register::read_date("2024-12-31").unwrap();
    assert_eq!(Register::voucher_fiscal_year(&d), 2024);
    let old = CalendarDate { year: -1, month: 1, day: 1 };
    assert_eq!(Register::voucher_fiscal_year(&old), u32::MAX);
}

#[test]
fn every_stage_has_its_progress_text() {
    assert_eq!(Register::progress(RegistrationStage::GeneratingVoucher), "伝票番号を自動生成しています...");
    assert_eq!(Register::progress(RegistrationStage::Storing), "イベントストアへ保存しています...");
    assert_eq!(Register::progress(RegistrationStage::Completing), "登録処理を完了しています...");
}

#[test]
fn refusals_carry_their_step() {
    let r = Register::refuse(RefusedAt::VoucherNumber, DomainError::InvalidAmount);
    assert_eq!(r.notice, "伝票番号が無効です: Invalid amount");
    let r = Register::refuse_lines(ApplicationError::ValidationError("side".to_string()));
    assert_eq!(r.notice, "仕訳明細の作成に失敗しました: Validation error: side");
    assert_eq!(r.error, ApplicationError::ValidationError("side".to_string()));
}

#[test]
fn entry_identifiers_are_hyphenated_random_uuids() {
    let a = new_entry_id();
    let b = new_entry_id();
    assert_eq!(a.chars().count(), 36);
    assert_eq!(a.chars().nth(8), Some('-'));
    assert_eq!(a.chars().nth(14), Some('4'));
    assert_ne!(a, b);
}

#[test]
fn replacement_needs_its_reference_entry() {
    assert!(Replace::check_reference("JE-9", true).is_ok());
    match Replace::check_reference("JE-9", false) {
        Err(ApplicationError::ValidationFailed(ms)) => assert_eq!(ms, vec!["参照元伝票が見つかりません: JE-9"]),
        _ => panic!("expected a validation error"),
    }
}

#[test]
fn replacement_date_errors_name_the_text() {
    assert!(Replace::read_date("2024-03-31").is_ok());
    match Replace::read_date("31/03/2024") {
        Err(ApplicationError::ValidationFailed(ms)) => assert_eq!(ms, vec!["Invalid date format: 31/03/2024"]),
        _ => panic!("expected a validation error"),
    }
}

#[test]
fn replacement_completion_names_the_reference() {
    let start = Replace::begin();
    assert_eq!(start.action, "洗替仕訳登録を開始");
    let (resp, done, result) = Replace::complete("E1".to_string(), "Draft".to_string(), Some("V-7".to_string()), Ok(()));
    assert!(result.is_ok());
    assert_eq!(resp.unwrap().entry_id, "E1");
    assert_eq!(done.unwrap().action, "洗替仕訳登録が完了 (参照: V-7)");
    let (_, done, _) = Replace::complete("E1".to_string(), "Draft".to_string(), None, Ok(()));
    assert_eq!(done.unwrap().action, "洗替仕訳登録が完了 (参照: )");
    let (resp, done, result) =
        Replace::complete("E1".to_string(), "Draft".to_string(), None, Err(DomainError::InvalidAmount));
    assert!(resp.is_none() && done.is_none());
    assert_eq!(result, Err(ApplicationError::DomainError(DomainError::InvalidAmount)));
}

#[test]
fn balance_weighs_debits_against_credits() {
    assert_eq!(check_balance(&request("2024-01-15", 100000).lines), Ok(()));
    assert_eq!(check_balance(&vec![]), Ok(()));
    let lines = vec![
        line(1, "Debit", "1010", 700),
        line(2, "Debit", "1020", 300),
        line(3, "Credit", "4010", 1000),
        line(4, "Memo", "9999", 5),
    ];
    assert_eq!(check_balance(&lines), Ok(()));
    assert_eq!(check_balance(&vec![line(1, "Debit", "1010", 1)]), Err(DomainError::UnbalancedEntry));
}

#[test]
fn registration_runs_every_step_in_order() {
    let mut req = request("2024-03-05", 100000);
    req.voucher_number = String::new();
    let (start, step) = Register::start(&req);
    assert_eq!(start.action, "仕訳登録を開始");
    assert_eq!(step.progress, vec!["入力データを検証しています..."]);
    let date = match step.action {
        RegistrationAction::CheckTransactionDate(d) => d,
        _ => panic!("the date is checked first"),
    };
    assert_eq!(date, CalendarDate { year: 2024, month: 3, day: 5 });
    let step = Register::step(step.state, RegistrationEvent::Checked(Ok(())), &req.lines);
    assert_eq!(step.progress, vec!["伝票番号を自動生成しています..."]);
    assert!(matches!(step.action, RegistrationAction::GenerateVoucher(2024)));
    let step = Register::step(step.state, RegistrationEvent::VoucherGenerated(Ok("V-2024-00001".to_string())), &req.lines);
    match &step.action {
        RegistrationAction::CheckVoucherNumber(v) => assert_eq!(v, "V-2024-00001"),
        _ => panic!("the generated voucher is checked"),
    }
    let step = Register::step(step.state, RegistrationEvent::Checked(Ok(())), &req.lines);
    assert_eq!(step.progress, vec!["仕訳明細を作成しています..."]);
    let step = Register::step(step.state, RegistrationEvent::LinesMade(Ok(())), &req.lines);
    assert_eq!(step.progress, vec!["借貸バランスを検証しています...", "仕訳エンティティを作成しています..."]);
    let id = match &step.action {
        RegistrationAction::MakeEntry { entry_id, date, voucher_number } => {
            assert_eq!(*date, CalendarDate { year: 2024, month: 3, day: 5 });
            assert_eq!(voucher_number, "V-2024-00001");
            assert_eq!(entry_id.chars().count(), 36);
            entry_id.clone()
        },
        _ => panic!("the entry is made"),
    };
    let step = Register::step(step.state, RegistrationEvent::EntryMade(Ok("Draft".to_string())), &req.lines);
    assert_eq!(step.progress, vec!["イベントストアへ保存しています..."]);
    match &step.action {
        RegistrationAction::AppendEvents(e) => assert_eq!(*e, id),
        _ => panic!("the events are stored"),
    }
    let step = Register::step(step.state, RegistrationEvent::Stored(Ok(())), &req.lines);
    assert_eq!(step.progress, vec!["登録処理を完了しています..."]);
    match step.action {
        RegistrationAction::Complete { response, notice } => {
            assert_eq!(response.entry_id, id);
            assert_eq!(response.status, "Draft");
            assert_eq!(notice.action, "仕訳登録が完了");
        },
        _ => panic!("the registration completes"),
    }
}

#[test]
fn registration_stops_at_an_unreadable_date_or_a_store_failure() {
    let (_, step) = Register::start(&request("15/01/2024", 100000));
    assert!(matches!(step.state, RegistrationState::Over));
    assert!(matches!(step.action, RegistrationAction::Fail(_)));
    let req = request("2024-01-15", 100000);
    let state = RegistrationState::Store { entry_id: "E".to_string(), status: "Draft".to_string() };
    assert!(Register::accepts(&state, &RegistrationEvent::Stored(Ok(()))));
    assert!(!Register::accepts(&state, &RegistrationEvent::Checked(Ok(()))));
    let step = Register::step(state, RegistrationEvent::Stored(Err(DomainError::InvalidAmount)), &req.lines);
    assert!(step.progress.is_empty());
    match step.action {
        RegistrationAction::Fail(r) => assert_eq!(r.error, ApplicationError::DomainError(DomainError::InvalidAmount)),
        _ => panic!("the store failure ends the registration"),
    }
}

#[test]
fn replacement_runs_its_steps() {
    let req = CreateReplacementEntryRequest {
        reference_entry_id: "JE-1".to_string(),
        transaction_date: "2024-06-30".to_string(),
        voucher_number: "V-9".to_string(),
        lines: vec![line(1, "Debit", "1010", 10), line(2, "Credit", "4010", 10)],
        user_id: "u".to_string(),
    };
    let (start, step) = Replace::start(&req);
    assert_eq!(start.action, "洗替仕訳登録を開始");
    assert!(matches!(&step.action, ReplacementAction::FindReference(id) if id == "JE-1"));
    let missing = Replace::step(step.state.clone(), ReplacementEvent::Found(Ok(None)), &req.lines);
    assert!(matches!(missing.action, ReplacementAction::Fail(ApplicationError::ValidationFailed(_))));
    let found = ReferenceEntry { entry_number: Some("V-1".to_string()) };
    let step = Replace::step(step.state, ReplacementEvent::Found(Ok(Some(found))), &req.lines);
    assert!(matches!(step.action, ReplacementAction::CheckTransactionDate(CalendarDate { year: 2024, month: 6, day: 30 })));
    let step = Replace::step(step.state, ReplacementEvent::Checked(Ok(())), &req.lines);
    let step = Replace::step(step.state, ReplacementEvent::Checked(Ok(())), &req.lines);
    let step = Replace::step(step.state, ReplacementEvent::LinesMade(Ok(())), &req.lines);
    assert!(matches!(step.action, ReplacementAction::MakeEntry { .. }));
    let step = Replace::step(step.state, ReplacementEvent::EntryMade(Ok("Draft".to_string())), &req.lines);
    let step = Replace::step(step.state, ReplacementEvent::Stored(Ok(())), &req.lines);
    match step.action {
        ReplacementAction::Complete { notice, .. } => assert_eq!(notice.action, "洗替仕訳登録が完了 (参照: V-1)"),
        _ => panic!("the replacement completes"),
    }
}
