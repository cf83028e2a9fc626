//! Screen 305, account adjustment: clearing suspense accounts and
//! correcting classifications.

use vstd::prelude::*;
use crate::adapter::components::loading_spinner::SPINNER_FRAMES;
use crate::adapter::components::data_table::DataTable;
use crate::adapter::components::event_log::{EventLog, LogLevel};
use crate::adapter::pages::screen::{opened_screen, Screen, ScreenModel, ANIMATION_FRAMES};
use crate::text::{from_literal, strings};
use crate::adapter::components::data_table::rows_of;
use crate::adapter::pages::screen::{push_row, row5};
use crate::application::dtos::{AccountReclassificationDto, AdjustAccountsResponse, TaxEffectAdjustmentDto};
use crate::text::{amount_text, decimal, fixed1, format_amount, format_fixed1, format_u64, join2, push_text};

verus! {

/// The row of a reclassification.
pub open spec fn reclassification_row(a: AccountReclassificationDto) -> Seq<Seq<char>> {
    seq!["勘定振替"@, a.from_account@, a.to_account@, amount_text(a.amount as int, a.currency@), a.reason@]
}

/// The row of a tax-effect adjustment: the rate as a percentage with one decimal.
pub open spec fn tax_effect_row(t: TaxEffectAdjustmentDto) -> Seq<Seq<char>> {
    seq![
        "税効果"@,
        "一時差異"@,
        "繰延税金資産/負債"@,
        amount_text(t.deferred_tax_amount as int, t.deferred_tax_amount_currency@),
        "税率: "@ + fixed1(t.tax_rate as int) + "%"@,
    ]
}

/// The rows that show an adjustment result.
pub open spec fn adjustment_rows(r: AdjustAccountsResponse) -> Seq<Seq<Seq<char>>> {
    r.reclassified_accounts@.map_values(|a: AccountReclassificationDto| reclassification_row(a))
        + r.tax_effect_adjustments@.map_values(|t: TaxEffectAdjustmentDto| tax_effect_row(t))
}

/// The message logged when the adjustment result arrives.
pub open spec fn adjustment_message(r: AdjustAccountsResponse) -> Seq<char> {
    "勘定補正完了: 振替 "@ + decimal(r.reclassified_accounts@.len()) + " 件、税効果 "@
        + decimal(r.tax_effect_adjustments@.len()) + " 件、調整仕訳 "@
        + decimal(r.adjustment_entries_created as nat) + " 件"@
}

/// The screen.
pub struct AccountAdjustmentPage {
    screen: Screen,
}

impl View for AccountAdjustmentPage {
    type V = ScreenModel;

    closed spec fn view(&self) -> ScreenModel {
        self.screen@
    }
}

impl AccountAdjustmentPage {
    /// The screen's invariant.
    pub closed spec fn wf(&self) -> bool {
        self.screen.wf()
    }

    /// A well-formed page's table is well formed and both animations are
    /// within their frames.
    pub proof fn frames_in_range(&self)
        requires
            self.wf(),
        ensures
            self@.table.wf(),
            self@.animation_frame < ANIMATION_FRAMES,
            self@.spinner < SPINNER_FRAMES,
    {
        self.screen.frames_in_range();
    }

    /// The screen as it opens.
    pub open spec fn opened() -> ScreenModel {
        opened_screen(
            "◆ 勘定補正 - 仮勘定整理 ◆"@,
            seq!["補正種別"@, "元勘定"@, "先勘定"@, "金額"@, "理由"@],
            seq![15u16, 20u16, 20u16, 15u16, 25u16],
            seq![(LogLevel::Info, "勘定補正画面を開きました"@), (LogLevel::Info, "データを読み込んでいます..."@)],
        )
    }

    /// The screen as it opens: an empty table, two messages in the log,
    /// waiting for its data.
    pub fn new() -> (r: Self)
        ensures
            r.wf(),
            r@ == Self::opened(),
    {
        let headers = strings(&["補正種別", "元勘定", "先勘定", "金額", "理由"]);
        let table = DataTable::new(from_literal("◆ 勘定補正 - 仮勘定整理 ◆"), headers)
            .with_column_widths(vec![15, 20, 20, 15, 25]);
        let mut log = EventLog::new();
        log.add_info(from_literal("勘定補正画面を開きました"));
        log.add_info(from_literal("データを読み込んでいます..."));
        proof {
            assert(log@ =~= seq![(LogLevel::Info, "勘定補正画面を開きました"@), (LogLevel::Info, "データを読み込んでいます..."@)]);
        }
        let r = AccountAdjustmentPage { screen: Screen::new(table, log) };
        proof {
            let o = Self::opened();
            assert(r@.table.rows =~= o.table.rows);
            assert(r@.table.headers =~= o.table.headers);
            assert(r@.table.column_widths =~= o.table.column_widths);
            assert(r@.log =~= o.log);
            assert(r@.table == o.table);
        }
        r
    }

    /// Records an error: loading ends with it, and it is logged.
    pub fn set_error(&mut self, error: String)
        requires
            old(self).wf(),
        ensures
            final(self).wf(),
            final(self)@ == old(self)@.failed(error@),
    {
        self.screen.set_error(error);
    }

    /// Whether the data is still awaited.
    pub fn is_loading(&self) -> (r: bool)
        ensures
            r == (self@.status is Loading),
    {
        self.screen.is_loading()
    }

    /// Moves the animations on by one frame.
    pub fn tick(&mut self)
        requires
            old(self).wf(),
        ensures
            final(self).wf(),
            final(self)@ == old(self)@.ticked(),
    {
        self.screen.tick();
    }

    /// Logs an informational message.
    pub fn add_info(&mut self, message: String)
        requires
            old(self).wf(),
        ensures
            final(self).wf(),
            final(self)@ == old(self)@.logged(LogLevel::Info, message@),
    {
        self.screen.add_info(message);
    }

    /// Logs an error message.
    pub fn add_error(&mut self, message: String)
        requires
            old(self).wf(),
        ensures
            final(self).wf(),
            final(self)@ == old(self)@.logged(LogLevel::Error, message@),
    {
        self.screen.add_error(message);
    }

    /// Moves the selection down one row.
    pub fn select_next(&mut self)
        requires
            old(self).wf(),
        ensures
            final(self).wf(),
            final(self)@ == (ScreenModel { table: old(self)@.table.next(), ..old(self)@ }),
    {
        self.screen.select_next();
    }

    /// Moves the selection up one row.
    pub fn select_previous(&mut self)
        requires
            old(self).wf(),
        ensures
            final(self).wf(),
            final(self)@ == (ScreenModel { table: old(self)@.table.previous(), ..old(self)@ }),
    {
        self.screen.select_previous();
    }

    /// The state the screen shows.
    pub fn screen(&self) -> (r: &Screen)
        ensures
            r@ == self@,
    {
        &self.screen
    }

    /// The cursor blinking at the end of the status bar.
    pub fn status_cursor(&self) -> (r: &'static str)
        ensures
            r@ == self@.cursor(),
    {
        self.screen.cursor()
    }

    /// Shows the adjustments: a row for each reclassification, then one for
    /// each tax-effect adjustment; loading ends and the counts are logged.
    pub fn set_response(&mut self, response: AdjustAccountsResponse)
        requires
            old(self).wf(),
        ensures
            final(self).wf(),
            final(self)@ == old(self)@.loaded_with(adjustment_rows(response)).logged(
                LogLevel::Info,
                adjustment_message(response),
            ),
    {
        let mut data: Vec<Vec<String>> = Vec::new();
        let re = &response.reclassified_accounts;
        let mut i: usize = 0;
        proof {
            assert(rows_of(data@) =~= re@.subrange(0, 0).map_values(|a: AccountReclassificationDto| reclassification_row(a)));
        }
        while i < re.len()
            invariant
                i <= re@.len(),
                re@ == response.reclassified_accounts@,
                rows_of(data@) == re@.subrange(0, i as int).map_values(
                    |a: AccountReclassificationDto| reclassification_row(a),
                ),
            decreases re@.len() - i,
        {
            let a = &re[i];
            push_row(&mut data, row5(
                from_literal("勘定振替"),
                a.from_account.clone(),
                a.to_account.clone(),
                format_amount(a.amount, a.currency.as_str()),
                a.reason.clone(),
            ));
            proof {
                assert(re@.subrange(0, i + 1).map_values(|a: AccountReclassificationDto| reclassification_row(a))
                    =~= re@.subrange(0, i as int).map_values(|a: AccountReclassificationDto| reclassification_row(a)).push(
                    reclassification_row(re@[i as int])));
            }
            i = i + 1;
        }
        proof {
            assert(re@.subrange(0, re@.len() as int) =~= re@);
        }
        let ghost after_re = rows_of(data@);
        let tx = &response.tax_effect_adjustments;
        let mut j: usize = 0;
        while j < tx.len()
            invariant
                j <= tx@.len(),
                tx@ == response.tax_effect_adjustments@,
                rows_of(data@) == after_re + tx@.subrange(0, j as int).map_values(
                    |t: TaxEffectAdjustmentDto| tax_effect_row(t),
                ),
            decreases tx@.len() - j,
        {
            let t = &tx[j];
            let mut rate = join2("税率: ", format_fixed1(t.tax_rate).as_str());
            push_text(&mut rate, "%");
            push_row(&mut data, row5(
                from_literal("税効果"),
                from_literal("一時差異"),
                from_literal("繰延税金資産/負債"),
                format_amount(t.deferred_tax_amount, t.deferred_tax_amount_currency.as_str()),
                rate,
            ));
            proof {
                assert(tx@.subrange(0, j + 1).map_values(|t: TaxEffectAdjustmentDto| tax_effect_row(t))
                    =~= tx@.subrange(0, j as int).map_values(|t: TaxEffectAdjustmentDto| tax_effect_row(t)).push(
                    tax_effect_row(tx@[j as int])));
            }
            j = j + 1;
        }
        proof {
            assert(tx@.subrange(0, tx@.len() as int) =~= tx@);
            assert(rows_of(data@) =~= adjustment_rows(response));
        }
        self.screen.set_rows(data);
        let mut message = join2("勘定補正完了: 振替 ", format_u64(response.reclassified_accounts.len() as u64).as_str());
        push_text(&mut message, " 件、税効果 ");
        push_text(&mut message, format_u64(response.tax_effect_adjustments.len() as u64).as_str());
        push_text(&mut message, " 件、調整仕訳 ");
        push_text(&mut message, format_u64(response.adjustment_entries_created as u64).as_str());
        push_text(&mut message, " 件");
        self.screen.add_info(message);
    }
}

impl Default for AccountAdjustmentPage {
    fn default() -> (r: Self)
        ensures
            r.wf(),
            r@ == AccountAdjustmentPage::opened(),
    {
        AccountAdjustmentPage::new()
    }
}

} // verus!
