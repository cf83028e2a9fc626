//! Screen 201, ledger consolidation: the weekly posting to the general ledger.

use vstd::prelude::*;
use crate::adapter::components::loading_spinner::SPINNER_FRAMES;
use crate::adapter::components::data_table::DataTable;
use crate::adapter::components::event_log::{EventLog, LogLevel};
use crate::adapter::pages::screen::{opened_screen, Screen, ScreenModel, ANIMATION_FRAMES};
use crate::text::{from_literal, strings};
use crate::adapter::pages::screen::{LoadingState, LoadingStatus};

verus! {

/// The screen.
pub struct LedgerConsolidationPage {
    screen: Screen,
}

impl View for LedgerConsolidationPage {
    type V = ScreenModel;

    closed spec fn view(&self) -> ScreenModel {
        self.screen@
    }
}

/// The state shown in the status bar.
pub open spec fn consolidation_status_text(s: LoadingStatus) -> Seq<char> {
    match s {
        LoadingStatus::Loading => "読込中..."@,
        LoadingStatus::Loaded => "準備完了"@,
        LoadingStatus::Failed(_) => "エラー"@,
    }
}

impl LedgerConsolidationPage {
    /// The screen's invariant.
    pub closed spec fn wf(&self) -> bool {
        self.screen.wf()
    }

    /// A well-formed page's table is well formed and both animations are
    /// within their frames.
    pub proof fn frames_in_range(&self)
        requires
            self.wf(),
        ensures
            self@.table.wf(),
            self@.animation_frame < ANIMATION_FRAMES,
            self@.spinner < SPINNER_FRAMES,
    {
        self.screen.frames_in_range();
    }

    /// The screen as it opens.
    pub open spec fn opened() -> ScreenModel {
        opened_screen(
            "◆ 元帳集約 - 総勘定元帳への転記 ◆"@,
            seq!["勘定科目"@, "転記件数"@, "借方合計"@, "貸方合計"@, "状態"@],
            seq![25u16, 12u16, 15u16, 15u16, 15u16],
            seq![(LogLevel::Info, "元帳集約画面を開きました"@), (LogLevel::Info, "週次転記処理を準備しています..."@)],
        )
    }

    /// The screen as it opens: an empty table, two messages in the log,
    /// waiting for its data.
    pub fn new() -> (r: Self)
        ensures
            r.wf(),
            r@ == Self::opened(),
    {
        let headers = strings(&["勘定科目", "転記件数", "借方合計", "貸方合計", "状態"]);
        let table = DataTable::new(from_literal("◆ 元帳集約 - 総勘定元帳への転記 ◆"), headers)
            .with_column_widths(vec![25, 12, 15, 15, 15]);
        let mut log = EventLog::new();
        log.add_info(from_literal("元帳集約画面を開きました"));
        log.add_info(from_literal("週次転記処理を準備しています..."));
        proof {
            assert(log@ =~= seq![(LogLevel::Info, "元帳集約画面を開きました"@), (LogLevel::Info, "週次転記処理を準備しています..."@)]);
        }
        let r = LedgerConsolidationPage { screen: Screen::new(table, log) };
        proof {
            let o = Self::opened();
            assert(r@.table.rows =~= o.table.rows);
            assert(r@.table.headers =~= o.table.headers);
            assert(r@.table.column_widths =~= o.table.column_widths);
            assert(r@.log =~= o.log);
            assert(r@.table == o.table);
        }
        r
    }

    /// Records an error: loading ends with it, and it is logged.
    pub fn set_error(&mut self, error: String)
        requires
            old(self).wf(),
        ensures
            final(self).wf(),
            final(self)@ == old(self)@.failed(error@),
    {
        self.screen.set_error(error);
    }

    /// Whether the data is still awaited.
    pub fn is_loading(&self) -> (r: bool)
        ensures
            r == (self@.status is Loading),
    {
        self.screen.is_loading()
    }

    /// Moves the animations on by one frame.
    pub fn tick(&mut self)
        requires
            old(self).wf(),
        ensures
            final(self).wf(),
            final(self)@ == old(self)@.ticked(),
    {
        self.screen.tick();
    }

    /// Logs an informational message.
    pub fn add_info(&mut self, message: String)
        requires
            old(self).wf(),
        ensures
            final(self).wf(),
            final(self)@ == old(self)@.logged(LogLevel::Info, message@),
    {
        self.screen.add_info(message);
    }

    /// Logs an error message.
    pub fn add_error(&mut self, message: String)
        requires
            old(self).wf(),
        ensures
            final(self).wf(),
            final(self)@ == old(self)@.logged(LogLevel::Error, message@),
    {
        self.screen.add_error(message);
    }

    /// Moves the selection down one row.
    pub fn select_next(&mut self)
        requires
            old(self).wf(),
        ensures
            final(self).wf(),
            final(self)@ == (ScreenModel { table: old(self)@.table.next(), ..old(self)@ }),
    {
        self.screen.select_next();
    }

    /// Moves the selection up one row.
    pub fn select_previous(&mut self)
        requires
            old(self).wf(),
        ensures
            final(self).wf(),
            final(self)@ == (ScreenModel { table: old(self)@.table.previous(), ..old(self)@ }),
    {
        self.screen.select_previous();
    }

    /// The state the screen shows.
    pub fn screen(&self) -> (r: &Screen)
        ensures
            r@ == self@,
    {
        &self.screen
    }

    /// The ledger data has arrived: loading is over, and this is logged.
    pub fn set_loaded(&mut self)
        requires
            old(self).wf(),
        ensures
            final(self).wf(),
            final(self)@ == (ScreenModel { status: LoadingStatus::Loaded, ..old(self)@ }).logged(
                LogLevel::Info,
                "元帳集約データを読み込みました"@,
            ),
    {
        self.screen.set_loaded();
        self.screen.add_info(from_literal("元帳集約データを読み込みました"));
    }

    /// The state shown in the status bar.
    pub fn status_text(&self) -> (r: &'static str)
        ensures
            r@ == consolidation_status_text(self@.status),
    {
        match self.screen.loading_state() {
            LoadingState::Loading => "読込中...",
            LoadingState::Loaded => "準備完了",
            LoadingState::Error(_) => "エラー",
        }
    }

    /// Whether the status bar shows its state as an error (in red).
    pub fn status_is_error(&self) -> (r: bool)
        ensures
            r == (self@.status is Failed),
    {
        match self.screen.loading_state() {
            LoadingState::Error(_) => true,
            _ => false,
        }
    }
}

impl Default for LedgerConsolidationPage {
    fn default() -> (r: Self)
        ensures
            r.wf(),
            r@ == LedgerConsolidationPage::opened(),
    {
        LedgerConsolidationPage::new()
    }
}

} // verus!
