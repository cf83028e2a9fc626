//! The journal entry input screen.

use vstd::prelude::*;
use crate::adapter::layouts::MainLayout;
use crate::text::from_literal;

verus! {

/// The screen, framed under its title.
pub struct JournalEntryPage {
    layout: MainLayout,
}

impl JournalEntryPage {
    /// The title of the frame.
    pub closed spec fn title(&self) -> Seq<char> {
        self.layout.title()
    }

    /// The screen, titled "仕訳入力".
    pub fn new() -> (r: Self)
        ensures
            r.title() == "仕訳入力"@,
    {
        JournalEntryPage { layout: MainLayout::new(from_literal("仕訳入力")) }
    }

    /// The title of the frame.
    pub fn title_text(&self) -> (r: &str)
        ensures
            r@ == self.title(),
    {
        self.layout.title_text()
    }
}

impl Default for JournalEntryPage {
    fn default() -> (r: Self)
        ensures
            r.title() == "仕訳入力"@,
    {
        JournalEntryPage::new()
    }
}

} // verus!
