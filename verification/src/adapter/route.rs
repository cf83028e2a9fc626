//! Screen identifiers.

use vstd::prelude::*;

verus! {

/// Which screen to show; a route carries no state of its own.
#[derive(Debug, Clone, Copy, PartialEq, Eq, Hash, Structural)]
pub enum Route {
    /// The main menu.
    Home,
    /// 101: journal entry form.
    JournalEntry,
    /// 102: journal entry search.
    Search,
    /// 401: ledger view.
    Ledger,
    /// Ledger detail (drill-down from the ledger).
    LedgerDetail,
    /// 201: ledger consolidation.
    LedgerConsolidation,
    /// 201E: ledger consolidation, running.
    LedgerConsolidationExecution,
    /// 301: closing preparation.
    ClosingPreparation,
    /// 301E: closing preparation, running.
    ClosingPreparationExecution,
    /// 302: closing lock.
    ClosingLock,
    /// 303: trial balance.
    TrialBalance,
    /// 304: note draft.
    NoteDraft,
    /// 305: account adjustment.
    AccountAdjustment,
    /// 305E: account adjustment, running.
    AccountAdjustmentExecution,
    /// 306: IFRS valuation.
    IfrsValuation,
    /// 306E: IFRS valuation, running.
    IfrsValuationExecution,
    /// 307: financial statements.
    FinancialStatement,
    /// 307E: financial statements, running.
    FinancialStatementExecution,
    /// 901: account master.
    AccountMaster,
    /// 902: subsidiary account master.
    SubsidiaryAccountMaster,
    /// 903: application settings.
    ApplicationSettings,
    /// 904: data import.
    DataImport,
    /// 905: data export.
    DataExport,
}

} // verus!
