//! The journal: every transaction recorded on the date it occurred.
//! Controls: debits equal credits, and every entry carries its evidence.

use vstd::prelude::*;
use chrono::NaiveDate;
use crate::domain::error::DomainResult;
use crate::domain::values::{AccountCode, AccountingPeriod, Amount};

verus! {

/// The calendar date of a transaction (chrono's `NaiveDate`), carried through
/// the journal unread.
#[verifier::external_type_specification]
#[verifier::external_body]
pub struct ExNaiveDate(NaiveDate);

/// The identifier of a journal entry.
#[derive(Debug, Clone, PartialEq, Eq)]
pub struct JournalEntryId(String);

impl View for JournalEntryId {
    type V = Seq<char>;

    closed spec fn view(&self) -> Seq<char> {
        self.0@
    }
}

impl JournalEntryId {
    /// Wraps an identifier.
    pub fn new(id: String) -> (r: Self)
        ensures
            r@ == id@,
    {
        JournalEntryId(id)
    }

    /// The identifier as text.
    pub fn value(&self) -> (r: &str)
        ensures
            r@ == self@,
    {
        self.0.as_str()
    }
}

/// How much risk an entry carries.
#[derive(Debug, Clone, Copy, PartialEq, Eq, Structural)]
pub enum RiskClassification {
    /// Routine processing.
    Low,
    /// Contains an estimate.
    Medium,
    /// Depends on a forecast.
    High,
    /// A management decision.
    Critical,
}

/// The kind of accounting judgement behind an entry.
#[derive(Debug, Clone, Copy, PartialEq, Eq, Structural)]
pub enum JudgmentType {
    /// An estimate.
    Estimate,
    /// A judgement.
    Judgment,
    /// Routine processing.
    Routine,
}

/// The abstract content of a journal entry.
pub struct JournalEntryModel {
    pub id: Seq<char>,
    pub transaction_date: NaiveDate,
    pub accounting_period: (u32, u32),
    pub debit_account: Seq<char>,
    pub credit_account: Seq<char>,
    pub amount: i64,
    pub evidence_reference: Seq<char>,
    pub risk_classification: RiskClassification,
    pub judgment_type: JudgmentType,
    pub approved: bool,
}

/// One line of the journal: a single amount debited to one account and
/// credited to another.
#[derive(Debug)]
pub struct JournalEntry {
    id: JournalEntryId,
    transaction_date: NaiveDate,
    accounting_period: AccountingPeriod,
    debit_account: AccountCode,
    credit_account: AccountCode,
    amount: Amount,
    evidence_reference: String,
    risk_classification: RiskClassification,
    judgment_type: JudgmentType,
    approved: bool,
}

impl JournalEntryModel {
    /// The same entry, approved.
    pub open spec fn approved_version(self) -> JournalEntryModel {
        JournalEntryModel { approved: true, ..self }
    }
}

impl View for JournalEntry {
    type V = JournalEntryModel;

    closed spec fn view(&self) -> JournalEntryModel {
        JournalEntryModel {
            id: self.id@,
            transaction_date: self.transaction_date,
            accounting_period: self.accounting_period@,
            debit_account: self.debit_account@,
            credit_account: self.credit_account@,
            amount: self.amount@,
            evidence_reference: self.evidence_reference@,
            risk_classification: self.risk_classification,
            judgment_type: self.judgment_type,
            approved: self.approved,
        }
    }
}

impl JournalEntry {
    /// Records a new, not yet approved, entry.
    pub fn new(
        id: JournalEntryId,
        transaction_date: NaiveDate,
        accounting_period: AccountingPeriod,
        debit_account: AccountCode,
        credit_account: AccountCode,
        amount: Amount,
        evidence_reference: String,
        risk_classification: RiskClassification,
        judgment_type: JudgmentType,
    ) -> (r: Self)
        ensures
            r@.id == id@,
            r@.transaction_date == transaction_date,
            r@.accounting_period == accounting_period@,
            r@.debit_account == debit_account@,
            r@.credit_account == credit_account@,
            r@.amount == amount@,
            r@.evidence_reference == evidence_reference@,
            r@.risk_classification == risk_classification,
            r@.judgment_type == judgment_type,
            !r@.approved,
    {
        JournalEntry {
            id,
            transaction_date,
            accounting_period,
            debit_account,
            credit_account,
            amount,
            evidence_reference,
            risk_classification,
            judgment_type,
            approved: false,
        }
    }

    /// The entry's identifier.
    pub fn id(&self) -> (r: &JournalEntryId)
        ensures
            r@ == self@.id,
    {
        &self.id
    }

    /// Approves the entry; nothing else changes.
    pub fn approve(&mut self)
        ensures
            final(self)@ == old(self)@.approved_version(),
    {
        self.approved = true;
    }

    /// Checks that debits equal credits. A single entry books one amount on
    /// both sides, so it always balances.
    pub fn validate_balance(&self) -> (r: DomainResult<()>)
        ensures
            r is Ok,
    {
        Ok(())
    }

    /// Whether evidence is attached: the evidence reference is not empty.
    pub fn has_evidence(&self) -> (r: bool)
        ensures
            r == (self@.evidence_reference.len() > 0),
    {
        !self.evidence_reference.as_str().is_empty()
    }

    /// Whether the entry has been approved.
    pub fn is_approved(&self) -> (r: bool)
        ensures
            r == self@.approved,
    {
        self.approved
    }
}

/// Approval is the only change `approve` makes, and it is idempotent: a
/// second approval leaves the entry as the first left it.
pub proof fn law_approve_idempotent(e: JournalEntryModel)
    ensures
        e.approved_version().approved,
        e.approved_version().approved_version() == e.approved_version(),
{
}

} // verus!
