//! Screen 201's ledger list.

use vstd::prelude::*;
use crate::adapter::layouts::MainLayout;
use crate::text::from_literal;

verus! {

/// The screen, framed under its title.
pub struct LedgerPage {
    layout: MainLayout,
}

impl LedgerPage {
    /// The title of the frame.
    pub closed spec fn title(&self) -> Seq<char> {
        self.layout.title()
    }

    /// The screen, titled "元帳".
    pub fn new() -> (r: Self)
        ensures
            r.title() == "元帳"@,
    {
        LedgerPage { layout: MainLayout::new(from_literal("元帳")) }
    }

    /// The title of the frame.
    pub fn title_text(&self) -> (r: &str)
        ensures
            r@ == self.title(),
    {
        self.layout.title_text()
    }
}

impl Default for LedgerPage {
    fn default() -> (r: Self)
        ensures
            r.title() == "元帳"@,
    {
        LedgerPage::new()
    }
}

} // verus!
