//! The screens of the application.

pub mod account_adjustment_page;
pub mod account_master_page;
pub mod application_settings_page;
pub mod closing_page;
pub mod closing_preparation_page;
pub mod financial_statement_page;
pub mod home_page;
pub mod ifrs_valuation_page;
pub mod journal_entry_page;
pub mod ledger_consolidation_page;
pub mod ledger_page;
pub mod ledger_view_page;
pub mod screen;
pub mod subsidiary_account_master_page;
