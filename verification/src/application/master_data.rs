//! Master data and settings loaded when the application starts.

use vstd::prelude::*;
use crate::text::from_literal;

verus! {

/// The master data and settings.
#[derive(Debug, Clone)]
pub struct MasterData {
    /// Chart of accounts.
    pub accounts: Vec<AccountMaster>,
    /// Companies.
    pub companies: Vec<CompanyMaster>,
    /// The user's options.
    pub user_options: UserOptions,
    /// System-wide settings.
    pub system_settings: SystemSettings,
}

/// An account of the chart of accounts.
#[derive(Debug, Clone)]
pub struct AccountMaster {
    pub code: String,
    pub name: String,
    pub account_type: AccountType,
    pub is_active: bool,
}

/// The five kinds of account.
#[derive(Debug, Clone, Copy, PartialEq, Eq, Structural)]
pub enum AccountType {
    Asset,
    Liability,
    Equity,
    Revenue,
    Expense,
}

/// A company.
#[derive(Debug, Clone)]
pub struct CompanyMaster {
    pub code: String,
    pub name: String,
    pub is_active: bool,
}

/// The user's options.
#[derive(Debug, Clone)]
pub struct UserOptions {
    /// The company selected by default.
    pub default_company_code: Option<String>,
    /// Display language.
    pub language: String,
    /// Digits after the decimal point.
    pub decimal_places: u8,
    /// Date format.
    pub date_format: String,
}

/// System-wide settings.
#[derive(Debug, Clone)]
pub struct SystemSettings {
    /// The month the fiscal year starts.
    pub fiscal_year_start_month: u8,
    /// The closing day of the month.
    pub closing_day: u8,
    /// Whether backups are taken automatically.
    pub auto_backup_enabled: bool,
    /// How many days backups are kept.
    pub backup_retention_days: u32,
}

impl Default for UserOptions {
    /// Japanese, no default company, two decimals, ISO dates.
    fn default() -> (r: Self)
        ensures
            r.default_company_code is None,
            r.language@ == "ja"@,
            r.decimal_places == 2,
            r.date_format@ == "YYYY-MM-DD"@,
    {
        UserOptions {
            default_company_code: None,
            language: from_literal("ja"),
            decimal_places: 2,
            date_format: from_literal("YYYY-MM-DD"),
        }
    }
}

impl Default for SystemSettings {
    /// A fiscal year from April, closing at month end, daily backups kept 90 days.
    fn default() -> (r: Self)
        ensures
            r.fiscal_year_start_month == 4,
            r.closing_day == 31,
            r.auto_backup_enabled,
            r.backup_retention_days == 90,
    {
        SystemSettings {
            fiscal_year_start_month: 4,
            closing_day: 31,
            auto_backup_enabled: true,
            backup_retention_days: 90,
        }
    }
}

/// The query that asks for the master data.
#[derive(Debug, Clone, Copy)]
pub struct LoadMasterDataQuery;

} // verus!
