//! Reusable parts of the screens.

pub mod data_table;
pub mod event_log;
pub mod event_viewer;
pub mod form;
pub mod input_field;
pub mod list_selector;
pub mod loading_spinner;
pub mod menu;
pub mod table;
