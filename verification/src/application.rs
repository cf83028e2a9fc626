//! Application layer: use-case results, master data, and notifications.

pub mod clock;
pub mod dtos;
pub mod error;
pub mod ifrs_valuation;
pub mod journal_entry_commands;
pub mod journal_entry_registration;
pub mod master_data;
pub mod output_port;
pub mod projection_builder;
pub mod record_user_action;
