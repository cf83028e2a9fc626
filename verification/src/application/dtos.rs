//! Results of the closing use cases, as handed to the screens.
//! Amounts are integers in the smallest unit of their currency, which is
//! named beside them where the screens show it.

use vstd::prelude::*;
use crate::application::clock::utc_now_micros;
use crate::domain::journal_entry::JournalEntryId;

verus! {

// Journal entry registration

/// A registered journal entry: its identifier and when it was registered.
#[derive(Debug, Clone)]
pub struct RegisterJournalEntryResponse {
    pub journal_entry_id: JournalEntryId,
    /// When it was registered, in microseconds since 1970-01-01 UTC.
    pub registered_at: i64,
}

impl RegisterJournalEntryResponse {
    /// A response for the given identifier, registered now. The flag and
    /// the message are accepted and not kept.
    pub fn simple(journal_entry_id: String, _success: bool, _message: String) -> (r: Self)
        ensures
            r.journal_entry_id@ == journal_entry_id@,
            r.registered_at >= 0,
    {
        let registered_at = utc_now_micros();
        RegisterJournalEntryResponse { journal_entry_id: JournalEntryId::new(journal_entry_id), registered_at }
    }
}

// Requests of the closing use cases

/// Ledger consolidation of a period, between two dates.
#[derive(Debug, Clone)]
pub struct ConsolidateLedgerRequest {
    pub fiscal_year: i32,
    pub period: u8,
    pub from_date: String,
    pub to_date: String,
}

/// A period of a fiscal year; the request of several closing use cases.
#[derive(Debug, Clone, Copy, PartialEq, Eq, Structural)]
pub struct PeriodRequest {
    pub fiscal_year: i32,
    pub period: u8,
}

/// Locking a period, by whom.
#[derive(Debug, Clone)]
pub struct LockClosingPeriodRequest {
    pub fiscal_year: i32,
    pub period: u8,
    pub locked_by: String,
}

/// Closing preparation of a period.
pub type PrepareClosingRequest = PeriodRequest;

/// The trial balance of a period.
pub type GenerateTrialBalanceRequest = PeriodRequest;

/// The note draft of a period.
pub type GenerateNoteDraftRequest = PeriodRequest;

/// Account adjustment of a period.
pub type AdjustAccountsRequest = PeriodRequest;

/// IFRS valuation of a period.
pub type ApplyIfrsValuationRequest = PeriodRequest;

/// The financial statements of a period.
pub type GenerateFinancialStatementsRequest = PeriodRequest;

// Account master

/// An account as the account master query returns it.
#[derive(Debug, Clone)]
pub struct AccountMasterItemDto {
    pub code: String,
    pub name: String,
    /// "Asset", "Liability", "Equity", "Revenue" or "Expense".
    pub account_type: String,
}

/// The account master query: an optional filter, and whether only active
/// accounts are wanted.
#[derive(Debug, Clone)]
pub struct LoadAccountMasterRequest {
    pub filter: Option<String>,
    pub active_only: bool,
}

/// The accounts that the account master query found.
#[derive(Debug, Clone)]
pub struct LoadAccountMasterResponse {
    pub accounts: Vec<AccountMasterItemDto>,
}

// Ledger consolidation

/// What ledger consolidation did.
#[derive(Debug, Clone)]
pub struct ConsolidateLedgerResponse {
    pub processed_entries_count: usize,
    pub updated_accounts_count: usize,
    pub discrepancies: Vec<LedgerDiscrepancyDto>,
}

/// An account whose general-ledger and subsidiary-ledger balances differ.
#[derive(Debug, Clone)]
pub struct LedgerDiscrepancyDto {
    pub account_code: String,
    pub general_ledger_balance: i64,
    pub subsidiary_ledger_balance: i64,
    pub difference: i64,
}

// Closing preparation

/// What closing preparation found and did.
#[derive(Debug, Clone)]
pub struct PrepareClosingResponse {
    pub unregistered_transactions_count: usize,
    pub bank_reconciliation_differences: Vec<BankReconciliationDifferenceDto>,
    pub accrual_entries_created: usize,
    pub provisional_financial_statements_generated: bool,
}

/// A bank account whose statement and cash log disagree (or agree).
#[derive(Debug, Clone)]
pub struct BankReconciliationDifferenceDto {
    pub bank_account: String,
    pub bank_balance: i64,
    pub cash_log_balance: i64,
    pub difference: i64,
}

// Closing lock

/// What locking the period did.
#[derive(Debug, Clone)]
pub struct LockClosingPeriodResponse {
    pub locked_entries_count: usize,
    /// When the period was locked, in microseconds since 1970-01-01 UTC.
    pub locked_at: i64,
    pub audit_log_id: String,
}

// Trial balance

/// The trial balance of a period.
#[derive(Debug, Clone)]
pub struct GenerateTrialBalanceResponse {
    pub total_debit: i64,
    pub total_credit: i64,
    pub is_balanced: bool,
    pub account_balances: Vec<AccountBalanceDto>,
    pub temporary_account_balances: Vec<AccountBalanceDto>,
    pub foreign_exchange_differences: Vec<ForeignExchangeDifferenceDto>,
}

/// A foreign-currency balance converted at the closing rate.
#[derive(Debug, Clone)]
pub struct ForeignExchangeDifferenceDto {
    pub account_code: String,
    pub original_amount: i64,
    /// The rate, in millionths (1.5 is 1500000).
    pub exchange_rate: i64,
    pub converted_amount: i64,
    pub difference: i64,
}

/// The balances of one account.
#[derive(Debug, Clone)]
pub struct AccountBalanceDto {
    pub account_code: String,
    pub debit_balance: i64,
    pub credit_balance: i64,
    pub net_balance: i64,
}

// Note draft

/// The draft of the notes to the financial statements.
#[derive(Debug, Clone)]
pub struct GenerateNoteDraftResponse {
    pub accounting_policies: Vec<String>,
    pub significant_estimates: Vec<String>,
    pub account_breakdowns: Vec<AccountBreakdownDto>,
    pub note_draft: String,
}

/// The components that make up an account's balance.
#[derive(Debug, Clone)]
pub struct AccountBreakdownDto {
    pub account_code: String,
    pub components: Vec<String>,
}

// Account adjustment

/// What account adjustment did.
#[derive(Debug, Clone)]
pub struct AdjustAccountsResponse {
    pub adjustment_entries_created: usize,
    pub reclassified_accounts: Vec<AccountReclassificationDto>,
    pub tax_effect_adjustments: Vec<TaxEffectAdjustmentDto>,
}

/// A deferred tax booked on a temporary difference.
#[derive(Debug, Clone)]
pub struct TaxEffectAdjustmentDto {
    pub temporary_difference: i64,
    /// The tax rate, in tenths of a percent (30.6% is 306).
    pub tax_rate: i64,
    pub deferred_tax_amount: i64,
    pub deferred_tax_amount_currency: String,
}

/// An amount moved from one account to another.
#[derive(Debug, Clone)]
pub struct AccountReclassificationDto {
    pub from_account: String,
    pub to_account: String,
    pub amount: i64,
    pub currency: String,
    pub reason: String,
}

// IFRS valuation

/// The valuation results that the valuation screen shows.
#[derive(Debug, Clone)]
pub struct ApplyIfrsValuationResponse {
    pub expected_credit_loss: i64,
    pub expected_credit_loss_currency: String,
    pub contingent_liabilities: Vec<ContingentLiabilityDto>,
    pub inventory_write_downs: Vec<InventoryWriteDownDto>,
    pub impairment_losses: Vec<ImpairmentLossDto>,
    pub fair_value_adjustments: Vec<FairValueAdjustmentDto>,
    pub lease_measurements: Vec<LeaseMeasurementDto>,
}

/// A contingent liability and how likely it is.
#[derive(Debug, Clone)]
pub struct ContingentLiabilityDto {
    pub description: String,
    /// The probability, in hundredths of a percent (35% is 3500).
    pub probability: i64,
    pub estimated_amount: i64,
}

/// Inventory written down to its net realizable value.
#[derive(Debug, Clone)]
pub struct InventoryWriteDownDto {
    pub item: String,
    pub cost: i64,
    pub net_realizable_value: i64,
    pub write_down_amount: i64,
}

/// An asset impaired to its recoverable amount.
#[derive(Debug, Clone)]
pub struct ImpairmentLossDto {
    pub asset: String,
    pub carrying_amount: i64,
    pub recoverable_amount: i64,
    pub impairment_loss: i64,
}

/// A financial asset measured at fair value.
#[derive(Debug, Clone)]
pub struct FairValueAdjustmentDto {
    pub financial_asset: String,
    pub book_value: i64,
    pub fair_value: i64,
    pub adjustment: i64,
}

/// A lease measured as a right-of-use asset and a liability.
#[derive(Debug, Clone)]
pub struct LeaseMeasurementDto {
    pub lease_contract: String,
    pub right_of_use_asset: i64,
    pub lease_liability: i64,
}

// Financial statements

/// The financial statements of a period.
#[derive(Debug, Clone)]
pub struct GenerateFinancialStatementsResponse {
    pub statement_of_financial_position: StatementOfFinancialPositionDto,
    pub statement_of_profit_or_loss: StatementOfProfitOrLossDto,
    pub statement_of_changes_in_equity: StatementOfChangesInEquityDto,
    pub statement_of_cash_flows: StatementOfCashFlowsDto,
    pub financial_indicators: FinancialIndicatorsDto,
    pub cross_check_passed: bool,
}

/// Key ratios: the returns in hundredths of a percent (12.34% is 1234),
/// the other ratios in hundredths (1.5 is 150).
#[derive(Debug, Clone, Copy)]
pub struct FinancialIndicatorsDto {
    /// Return on equity.
    pub roe: i64,
    /// Return on assets.
    pub roa: i64,
    pub current_ratio: i64,
    pub debt_to_equity_ratio: i64,
}

/// The statement of financial position.
#[derive(Debug, Clone)]
pub struct StatementOfFinancialPositionDto {
    pub current_assets: i64,
    pub current_assets_currency: String,
    pub non_current_assets: i64,
    pub non_current_assets_currency: String,
    pub current_liabilities: i64,
    pub current_liabilities_currency: String,
    pub non_current_liabilities: i64,
    pub non_current_liabilities_currency: String,
    pub equity: i64,
    pub equity_currency: String,
}

/// The statement of profit or loss.
#[derive(Debug, Clone)]
pub struct StatementOfProfitOrLossDto {
    pub revenue: i64,
    pub revenue_currency: String,
    pub cost_of_sales: i64,
    pub cost_of_sales_currency: String,
    pub gross_profit: i64,
    pub operating_expenses: i64,
    pub operating_profit: i64,
    pub operating_profit_currency: String,
    pub net_profit: i64,
    pub net_profit_currency: String,
}

/// The statement of changes in equity.
#[derive(Debug, Clone)]
pub struct StatementOfChangesInEquityDto {
    pub opening_balance: i64,
    pub net_profit: i64,
    pub dividends: i64,
    pub closing_balance: i64,
}

/// The statement of cash flows.
#[derive(Debug, Clone)]
pub struct StatementOfCashFlowsDto {
    pub operating_activities: i64,
    pub operating_activities_currency: String,
    pub investing_activities: i64,
    pub investing_activities_currency: String,
    pub financing_activities: i64,
    pub financing_activities_currency: String,
    pub net_change_in_cash: i64,
}

} // verus!
