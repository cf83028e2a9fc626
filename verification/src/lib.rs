//! Javelin: the rules of a double-entry bookkeeping terminal application,
//! from its journal entries and master data down to the state of each screen.

pub mod adapter;
pub mod application;
pub mod domain;
pub mod text;
