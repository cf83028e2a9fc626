//! Input modes of the form screens.

use vstd::prelude::*;

verus! {

/// Whether keys move between fields or edit the focused one.
#[derive(Debug, Clone, Copy, PartialEq, Eq, Structural)]
pub enum InputMode {
    /// Keys move the focus.
    Normal,
    /// Keys edit the focused field.
    Modify,
}

/// How a field takes input while it is being edited.
#[derive(Debug, Clone, Copy, PartialEq, Eq, Structural)]
pub enum ModifyInputType {
    /// Any text, shown as typed.
    Direct,
    /// Digits, shown with thousands separators.
    NumberOnly,
}

} // verus!
