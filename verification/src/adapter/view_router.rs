//! Navigation between views, with a history to go back through.

use vstd::prelude::*;

verus! {

/// The views of the application.
#[derive(Debug, Clone, Copy, PartialEq, Eq, Structural)]
pub enum ViewType {
    Home,
    // daily
    JournalEntry,
    // weekly
    LedgerConsolidation,
    // monthly
    ClosingPreparation,
    ClosingLock,
    TrialBalance,
    NoteDraft,
    AccountAdjustment,
    IfrsValuation,
    FinancialStatement,
    // browsing
    Ledger,
    // system masters
    AccountMasterManagement,
    CompanyMasterManagement,
    UserSettingsManagement,
    SystemSettingsManagement,
    DataBackup,
    DataImport,
    DataExport,
}

/// The state of a router: the view shown and the views to go back to, the
/// most recent last.
pub struct RouterModel {
    pub current: ViewType,
    pub history: Seq<ViewType>,
}

impl RouterModel {
    /// After showing `view`: the view that was shown goes onto the history.
    pub open spec fn to(self, view: ViewType) -> RouterModel {
        RouterModel { current: view, history: self.history.push(self.current) }
    }

    /// After going home: the home view, with no history.
    pub open spec fn home(self) -> RouterModel {
        RouterModel { current: ViewType::Home, history: Seq::empty() }
    }

    /// After going back: the most recent view of the history, if there is one;
    /// otherwise nothing changes.
    pub open spec fn back(self) -> RouterModel {
        if self.history.len() == 0 {
            self
        } else {
            RouterModel { current: self.history.last(), history: self.history.drop_last() }
        }
    }
}

/// Switches between views and remembers the way back.
pub struct ViewRouter {
    current_view: ViewType,
    view_history: Vec<ViewType>,
}

impl View for ViewRouter {
    type V = RouterModel;

    closed spec fn view(&self) -> RouterModel {
        RouterModel { current: self.current_view, history: self.view_history@ }
    }
}

impl ViewRouter {
    /// A router on the home view, with no history.
    pub fn new() -> (r: Self)
        ensures
            r@.current == ViewType::Home,
            r@.history.len() == 0,
    {
        ViewRouter { current_view: ViewType::Home, view_history: Vec::new() }
    }

    /// The view shown.
    pub fn current_view(&self) -> (r: &ViewType)
        ensures
            *r == self@.current,
    {
        &self.current_view
    }

    /// Shows `view`; the view shown before goes onto the history.
    pub fn navigate_to(&mut self, view: ViewType)
        ensures
            final(self)@ == old(self)@.to(view),
    {
        self.view_history.push(self.current_view);
        self.current_view = view;
    }

    /// Goes to the home view and forgets the history.
    pub fn navigate_home(&mut self)
        ensures
            final(self)@ == old(self)@.home(),
    {
        self.view_history.clear();
        self.current_view = ViewType::Home;
    }

    /// Goes back to the most recent view of the history; with no history,
    /// nothing changes.
    pub fn navigate_back(&mut self)
        ensures
            final(self)@ == old(self)@.back(),
    {
        if let Some(prev_view) = self.view_history.pop() {
            self.current_view = prev_view;
        }
    }
}

impl Default for ViewRouter {
    fn default() -> (r: Self)
        ensures
            r@.current == ViewType::Home,
            r@.history.len() == 0,
    {
        ViewRouter::new()
    }
}

/// Going back right after showing a view returns to exactly the state before.
pub proof fn law_back_undoes_navigate(m: RouterModel, view: ViewType)
    ensures
        m.to(view).back() == m,
{
    assert(m.history.push(m.current).drop_last() =~= m.history);
}

/// Each navigation adds exactly one view to the history.
pub proof fn law_navigate_grows_history(m: RouterModel, view: ViewType)
    ensures
        m.to(view).history.len() == m.history.len() + 1,
        m.to(view).current == view,
{
}

/// Going home leaves the home view with nothing to go back to, whatever the
/// state before; going back from there changes nothing.
pub proof fn law_home_resets(m: RouterModel)
    ensures
        m.home().current == ViewType::Home,
        m.home().history.len() == 0,
        m.home().back() == m.home(),
{
}

/// Going back never lengthens the history, and stops at an empty one.
pub proof fn law_back_shrinks_history(m: RouterModel)
    ensures
        m.history.len() > 0 ==> m.back().history.len() == m.history.len() - 1,
        m.history.len() == 0 ==> m.back() == m,
{
}

} // verus!
