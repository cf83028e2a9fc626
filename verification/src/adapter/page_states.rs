//! Page states: each screen's state and what its keys do. The drawing and
//! key reading loop runs outside.

use vstd::prelude::*;
use crate::adapter::page_navigator::Key;
use crate::adapter::pages::account_adjustment_page::AccountAdjustmentPage;
use crate::adapter::pages::screen::{ScreenModel, ANIMATION_FRAMES};
use crate::adapter::components::loading_spinner::SPINNER_FRAMES;
use crate::adapter::components::event_log::LogLevel;
use crate::adapter::route::Route;
use crate::text::from_literal;

verus! {

/// Where navigation goes after a screen.
#[derive(Debug, Clone, Copy, PartialEq, Eq, Structural)]
pub enum NavAction {
    /// Back to the previous screen.
    Back,
    /// To the given screen.
    Go(Route),
}

/// The state of the account adjustment screen.
pub struct AccountAdjustmentPageState {
    page: AccountAdjustmentPage,
}

impl View for AccountAdjustmentPageState {
    type V = ScreenModel;

    closed spec fn view(&self) -> ScreenModel {
        self.page@
    }
}

impl AccountAdjustmentPageState {
    /// The state's invariant.
    pub closed spec fn wf(&self) -> bool {
        self.page.wf()
    }

    /// A well-formed state's table is well formed and both animations are
    /// within their frames.
    pub proof fn frames_in_range(&self)
        requires
            self.wf(),
        ensures
            self@.table.wf(),
            self@.animation_frame < ANIMATION_FRAMES,
            self@.spinner < SPINNER_FRAMES,
    {
        self.page.frames_in_range();
    }

    /// The screen as it opens: a fresh account adjustment page.
    pub fn new() -> (r: Self)
        ensures
            r.wf(),
            r@ == AccountAdjustmentPage::opened(),
    {
        AccountAdjustmentPageState { page: AccountAdjustmentPage::new() }
    }

    /// The screen's route.
    pub fn route(&self) -> (r: Route)
        ensures
            r == Route::AccountAdjustment,
    {
        Route::AccountAdjustment
    }

    /// What a key does: Esc goes back; every other key is ignored.
    pub fn on_key(&self, key: Key) -> (r: Option<NavAction>)
        ensures
            key == Key::Esc ==> r == Some(NavAction::Back),
            key != Key::Esc ==> r is None,
    {
        match key {
            Key::Esc => Some(NavAction::Back),
            _ => None,
        }
    }

    /// Navigation failed: the error is logged.
    pub fn on_navigation_error(&mut self, error_message: &str)
        requires
            old(self).wf(),
        ensures
            final(self).wf(),
            final(self)@ == old(self)@.logged(LogLevel::Error, error_message@),
    {
        self.page.add_error(from_literal(error_message));
    }

    /// Moves the animations on by one frame.
    pub fn tick(&mut self)
        requires
            old(self).wf(),
        ensures
            final(self).wf(),
            final(self)@ == old(self)@.ticked(),
    {
        self.page.tick();
    }

    /// The screen.
    pub fn page(&self) -> (r: &AccountAdjustmentPage)
        ensures
            r@ == self@,
    {
        &self.page
    }
}

impl Default for AccountAdjustmentPageState {
    fn default() -> (r: Self)
        ensures
            r.wf(),
            r@ == AccountAdjustmentPage::opened(),
    {
        AccountAdjustmentPageState::new()
    }
}

} // verus!
