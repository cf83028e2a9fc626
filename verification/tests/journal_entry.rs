use chrono::NaiveDate;
use javelin::domain::error::DomainError;
use javelin::domain::journal_entry::{JournalEntry, JournalEntryId, JudgmentType, RiskClassification};
use javelin::domain::values::{AccountCode, AccountingPeriod, Amount};

fn entry(id: &str, evidence: &str) -> JournalEntry {
    let id = JournalEntryId::new(id.to_string());
    let date = NaiveDate::from_ymd_opt(2024, 1, 1).unwrap();
    let period = AccountingPeriod::new(2024, 1).unwrap();
    let debit = AccountCode::new("1000".to_string()).unwrap();
    let credit = AccountCode::new("2000".to_string()).unwrap();
    let amount = Amount::new(100000).unwrap();
    JournalEntry::new(
        id,
        date,
        period,
        debit,
        credit,
        amount,
        evidence.to_string(),
        RiskClassification::Low,
        JudgmentType::Routine,
    )
}

#[test]
fn test_journal_entry_creation() {
    let id = JournalEntryId::new("JE001".to_string());
    let date = NaiveDate::from_ymd_opt(2024, 1, 1).unwrap();
    let period = AccountingPeriod::new(2024, 1).unwrap();
    let debit = AccountCode::new("1000".to_string()).unwrap();
    let credit = AccountCode::new("2000".to_string()).unwrap();
    let amount = Amount::new(100000).unwrap();

    let entry = JournalEntry::new(
        id,
        date,
        period,
        debit,
        credit,
        amount,
        "INV-001".to_string(),
        RiskClassification::Low,
        JudgmentType::Routine,
    );

    assert!(entry.has_evidence());
    assert!(!entry.is_approved());
}

#[test]
fn test_journal_entry_approval() {
    let id = JournalEntryId::new("JE002".to_string());
    let date = NaiveDate::from_ymd_opt(2024, 1, 1).unwrap();
    let period = AccountingPeriod::new(2024, 1).unwrap();
    let debit = AccountCode::new("1000".to_string()).unwrap();
    let credit = AccountCode::new("2000".to_string()).unwrap();
    let amount = Amount::new(100000).unwrap();

    let mut entry = JournalEntry::new(
        id,
        date,
        period,
        debit,
        credit,
        amount,
        "INV-002".to_string(),
        RiskClassification::Low,
        JudgmentType::Routine,
    );

    entry.approve();
    assert!(entry.is_approved());
}

#[test]
fn test_journal_entry_balance_validation() {
    let id = JournalEntryId::new("JE003".to_string());
    let date = NaiveDate::from_ymd_opt(2024, 1, 1).unwrap();
    let period = AccountingPeriod::new(2024, 1).unwrap();
    let debit = AccountCode::new("1000".to_string()).unwrap();
    let credit = AccountCode::new("2000".to_string()).unwrap();
    let amount = Amount::new(100000).unwrap();

    let entry = JournalEntry::new(
        id,
        date,
        period,
        debit,
        credit,
        amount,
        "INV-003".to_string(),
        RiskClassification::Low,
        JudgmentType::Routine,
    );

    assert!(entry.validate_balance().is_ok());
}

#[test]
fn entry_without_evidence_has_none() {
    let e = entry("JE004", "");
    assert!(!e.has_evidence());
    assert_eq!(e.id().value(), "JE004");
}

#[test]
fn approving_twice_keeps_the_entry_approved() {
    let mut e = entry("JE005", "INV-005");
    e.approve();
    e.approve();
    assert!(e.is_approved());
    assert!(e.has_evidence());
}

#[test]
fn value_objects_refuse_bad_input() {
    assert_eq!(AccountCode::new(String::new()), Err(DomainError::InvalidAccountCode));
    assert_eq!(AccountingPeriod::new(2024, 0), Err(DomainError::InvalidAccountingPeriod));
    assert_eq!(AccountingPeriod::new(2024, 13), Err(DomainError::InvalidAccountingPeriod));
    assert_eq!(Amount::new(-1), Err(DomainError::InvalidAmount));
    assert_eq!(Amount::new(0).unwrap().value(), 0);
    let p = AccountingPeriod::new(2024, 12).unwrap();
    assert_eq!((p.year(), p.month()), (2024, 12));
    assert_eq!(AccountCode::new("1100".to_string()).unwrap().value(), "1100");
}
