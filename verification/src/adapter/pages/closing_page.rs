//! Screen 303 and the closing menu: running the closing use cases.

use vstd::prelude::*;
use crate::adapter::layouts::MainLayout;
use crate::text::from_literal;

verus! {

/// The screen, framed under its title.
pub struct ClosingPage {
    layout: MainLayout,
}

impl ClosingPage {
    /// The title of the frame.
    pub closed spec fn title(&self) -> Seq<char> {
        self.layout.title()
    }

    /// The screen, titled "月次決算処理".
    pub fn new() -> (r: Self)
        ensures
            r.title() == "月次決算処理"@,
    {
        ClosingPage { layout: MainLayout::new(from_literal("月次決算処理")) }
    }

    /// The title of the frame.
    pub fn title_text(&self) -> (r: &str)
        ensures
            r@ == self.title(),
    {
        self.layout.title_text()
    }
}

impl Default for ClosingPage {
    fn default() -> (r: Self)
        ensures
            r.title() == "月次決算処理"@,
    {
        ClosingPage::new()
    }
}

} // verus!
