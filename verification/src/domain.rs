//! Domain layer: journal entries and the value objects they are made of.

pub mod error;

pub mod journal_entry;
pub mod values;
